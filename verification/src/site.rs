//! Where a logging call was made: a source file and a line, and the module
//! name that is derived from the file's path.

use vstd::prelude::*;
use vstd::std_specs::iter::IteratorSpec;
use vstd::string::StrSliceExecFns;

verus! {

/// The source position of the call that asked for a record to be logged.
pub struct CallSite {
    /// Path of the source file, as the compiler reports it.
    pub file: &'static str,
    /// Line in that file, counted from 1.
    pub line: u32,
}

/// The mathematical content of a [`CallSite`].
pub struct CallSiteView {
    pub file: Seq<char>,
    pub line: u32,
}

impl View for CallSite {
    type V = CallSiteView;

    open spec fn view(&self) -> CallSiteView {
        CallSiteView { file: self.file@, line: self.line }
    }
}

/// The view of a call site that may be missing.
pub open spec fn site_view(site: Option<CallSite>) -> Option<CallSiteView> {
    match site {
        Some(s) => Some(s@),
        None => None,
    }
}

/// A path separator: the forward slash, or the backslash that Windows paths use.
pub open spec fn is_separator(c: char) -> bool {
    c == '/' || c == '\\'
}

/// The index just behind the last separator of `path`; 0 where it has none.
pub open spec fn module_start(path: Seq<char>) -> int
    decreases path.len(),
{
    if path.len() == 0 {
        0
    } else if is_separator(path.last()) {
        path.len() as int
    } else {
        module_start(path.drop_last())
    }
}

/// The module name that stands for a source file: what follows the last
/// separator of its path, the whole path where it has none.
pub open spec fn module_of(path: Seq<char>) -> Seq<char> {
    path.subrange(module_start(path), path.len() as int)
}

/// `module_start` is a position in the path, everything from it on is free of
/// separators, and the character before it, if there is one, is a separator.
pub proof fn lemma_module_start(path: Seq<char>)
    ensures
        0 <= module_start(path) <= path.len(),
        forall|i: int| module_start(path) <= i < path.len() ==> !is_separator(#[trigger] path[i]),
        module_start(path) > 0 ==> is_separator(path[module_start(path) - 1]),
    decreases path.len(),
{
    if path.len() > 0 && !is_separator(path.last()) {
        let front = path.drop_last();
        lemma_module_start(front);
        assert forall|i: int| module_start(path) <= i < path.len() implies !is_separator(
            #[trigger] path[i],
        ) by {
            if i < front.len() {
                assert(path[i] == front[i]);
            }
        }
        if module_start(path) > 0 {
            assert(path[module_start(path) - 1] == front[module_start(front) - 1]);
        }
    }
}

/// A position in the path with nothing but non-separators behind it and a
/// separator, or nothing, before it is `module_start` itself: the module name
/// is the longest tail of the path that holds no separator.
pub proof fn lemma_module_start_unique(path: Seq<char>, k: int)
    requires
        0 <= k <= path.len(),
        forall|i: int| k <= i < path.len() ==> !is_separator(#[trigger] path[i]),
        k > 0 ==> is_separator(path[k - 1]),
    ensures
        k == module_start(path),
{
    lemma_module_start(path);
    let m = module_start(path);
    if k < m {
        assert(!is_separator(path[m - 1]));
    } else if m < k {
        assert(!is_separator(path[k - 1]));
    }
}

/// Tells whether `c` is a path separator.
pub fn separates(c: char) -> (b: bool)
    ensures
        b == is_separator(c),
{
    c == '/' || c == '\\'
}

/// Reading one more character moves `module_start` behind it where it is a
/// separator, and leaves it where it was otherwise.
pub proof fn lemma_module_start_push(front: Seq<char>, c: char)
    ensures
        is_separator(c) ==> module_start(front.push(c)) == front.len() + 1,
        !is_separator(c) ==> module_start(front.push(c)) == module_start(front),
{
    assert(front.push(c).drop_last() =~= front);
}

/// The module name for the source file at `file`: the part of the path behind
/// its last `/` or `\`, the whole path where neither occurs.
pub fn module_name<'a>(file: &'a str) -> (name: &'a str)
    ensures
        name@ == module_of(file@),
{
    let len = file.unicode_len();
    let mut rest = file.chars();
    let mut read: usize = 0;
    let mut start: usize = 0;
    loop
        invariant
            len == file@.len(),
            read <= len,
            rest.remaining() == file@.subrange(read as int, len as int),
            start == module_start(file@.subrange(0, read as int)),
        ensures
            read == len,
        decreases len - read,
    {
        match rest.next() {
            Some(c) => {
                proof {
                    lemma_module_start_push(file@.subrange(0, read as int), c);
                    assert(file@.subrange(0, read + 1) =~= file@.subrange(0, read as int).push(c));
                }
                read = read + 1;
                if separates(c) {
                    start = read;
                }
            },
            None => {
                break ;
            },
        }
    }
    proof {
        assert(file@.subrange(0, len as int) =~= file@);
        lemma_module_start(file@);
    }
    file.substring_char(start, len)
}

} // verus!
