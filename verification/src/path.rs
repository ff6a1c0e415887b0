//! Paths as the build description sees them: text with `/` between the
//! parts, whatever the platform.

use vstd::prelude::*;
use crate::text::{chars_of, string_of, slice_chars, extend_chars, trailing_run};

verus! {

/// A path, held as text. The separator is `/`.
#[derive(Clone, Debug, PartialEq, Eq, Hash)]
pub struct Path(String);

impl View for Path {
    type V = Seq<char>;

    closed spec fn view(&self) -> Seq<char> {
        self.0@
    }
}

/// `s` with every backslash turned into a slash.
pub open spec fn slashed(s: Seq<char>) -> Seq<char> {
    Seq::new(s.len(), |i: int| if s[i] == '\\' { '/' } else { s[i] })
}

/// The greatest index at or above `lo` at which `c` stands in `s`.
pub open spec fn last_index_of(s: Seq<char>, c: char, lo: int) -> Option<int>
    decreases s.len(),
{
    if s.len() <= lo || s.len() == 0 {
        None
    } else if s.last() == c {
        Some(s.len() - 1)
    } else {
        last_index_of(s.drop_last(), c, lo)
    }
}

/// Where the file name of the path `s` begins: behind its last slash.
pub open spec fn name_start(s: Seq<char>) -> int {
    match last_index_of(s, '/', 0) {
        Some(i) => i + 1,
        None => 0,
    }
}

/// Where the extension of the path `s` begins, the dot included: at the
/// last dot of the file name, or at the end where the name has none.
pub open spec fn stem_end(s: Seq<char>) -> int {
    match last_index_of(s, '.', name_start(s)) {
        Some(d) => d,
        None => s.len() as int,
    }
}

/// The path `s` with its extension replaced by `suffix`; a suffix without
/// a leading dot gets one.
pub open spec fn with_extension(s: Seq<char>, suffix: Seq<char>) -> Seq<char> {
    let dot = if suffix.len() > 0 && suffix[0] == '.' {
        Seq::<char>::empty()
    } else {
        seq!['.']
    };
    s.subrange(0, stem_end(s)) + dot + suffix
}

/// The set that holds the slash alone.
pub open spec fn slash_set() -> spec_fn(char) -> bool {
    |c: char| c == '/'
}

/// The path `base` extended by `part`: `part` alone where it is absolute or
/// `base` is empty, else `base` without trailing slashes, a slash, `part`.
pub open spec fn joined(base: Seq<char>, part: Seq<char>) -> Seq<char> {
    if (part.len() > 0 && part[0] == '/') || base.len() == 0 {
        part
    } else {
        base.subrange(0, trailing_run(base, slash_set(), 0, base.len() as int)) + seq!['/'] + part
    }
}

fn rfind_char(v: &Vec<char>, c: char, lo: usize) -> (r: Option<usize>)
    ensures
        r matches Some(i) ==> last_index_of(v@, c, lo as int) == Some(i as int) && lo <= i
            < v.len(),
        r is None ==> last_index_of(v@, c, lo as int) is None,
{
    let mut j: usize = v.len();
    assert(v@.take(v.len() as int) =~= v@);
    while j > lo
        invariant
            j <= v.len(),
            last_index_of(v@, c, lo as int) == last_index_of(v@.take(j as int), c, lo as int),
        decreases j,
    {
        assert(v@.take(j as int).drop_last() =~= v@.take(j as int - 1));
        if v[j - 1] == c {
            return Some(j - 1);
        }
        j -= 1;
    }
    None
}

impl Path {
    /// The empty path.
    pub fn new() -> (r: Path)
        ensures
            r@ == Seq::<char>::empty(),
    {
        Path(String::new())
    }

    /// The path that `path` writes, with backslashes read as slashes.
    pub fn from(path: &str) -> (r: Path)
        ensures
            r@ == slashed(path@),
    {
        let src = chars_of(path);
        let mut out: Vec<char> = Vec::new();
        let mut i: usize = 0;
        while i < src.len()
            invariant
                i <= src.len(),
                out@.len() == i,
                forall|j: int| 0 <= j < i ==> out@[j] == slashed(src@)[j],
            decreases src.len() - i,
        {
            let c = src[i];
            out.push(if c == '\\' { '/' } else { c });
            i += 1;
        }
        assert(out@ =~= slashed(src@));
        Path(string_of(&out))
    }

    /// The text of the path.
    pub fn as_str(&self) -> (r: &str)
        ensures
            r@ == self@,
    {
        self.0.as_str()
    }

    /// The text of the path as a new string.
    pub fn to_string(&self) -> (r: String)
        ensures
            r@ == self@,
    {
        self.0.clone()
    }

    /// A copy of the path.
    pub fn cloned(&self) -> (r: Path)
        ensures
            r == *self,
    {
        Path(self.0.clone())
    }

    /// Whether the two paths hold the same text.
    pub fn same(&self, other: &Path) -> (r: bool)
        ensures
            r == (self@ == other@),
    {
        self.0 == other.0
    }

    /// The path with the extension of its file name replaced by `suffix`,
    /// or with `suffix` appended where the name has no extension.
    pub fn set_extension(&self, suffix: &str) -> (r: Path)
        ensures
            r@ == with_extension(self@, suffix@),
    {
        let path = chars_of(self.0.as_str());
        let suffix = chars_of(suffix);
        let start: usize = match rfind_char(&path, '/', 0) {
            Some(i) => i + 1,
            None => 0,
        };
        let end: usize = match rfind_char(&path, '.', start) {
            Some(d) => d,
            None => path.len(),
        };
        let mut out = slice_chars(&path, 0, end);
        if !(suffix.len() > 0 && suffix[0] == '.') {
            out.push('.');
        }
        extend_chars(&mut out, &suffix);
        assert(out@ =~= with_extension(self@, suffix@));
        Path(string_of(&out))
    }

    /// The path extended by `path`. An absolute `path` replaces the whole.
    pub fn join(&self, path: &str) -> (r: Path)
        ensures
            r@ == joined(self@, path@),
    {
        let base = chars_of(self.0.as_str());
        let part = chars_of(path);
        if (part.len() > 0 && part[0] == '/') || base.len() == 0 {
            return Path(String::from_str(path));
        }
        let mut end: usize = base.len();
        while end > 0 && base[end - 1] == '/'
            invariant
                end <= base.len(),
                trailing_run(base@, slash_set(), 0, base.len() as int) == trailing_run(
                    base@,
                    slash_set(),
                    0,
                    end as int,
                ),
            decreases end,
        {
            end -= 1;
        }
        let mut out = slice_chars(&base, 0, end);
        out.push('/');
        extend_chars(&mut out, &part);
        assert(out@ =~= joined(self@, path@));
        Path(string_of(&out))
    }
}

impl Default for Path {
    fn default() -> (r: Path)
        ensures
            r@ == Seq::<char>::empty(),
    {
        Path::new()
    }
}

} // verus!
