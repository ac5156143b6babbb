//! Validated relative paths: a file path (`a/b/c`) and a directory path
//! (`a/b/c/`). Neither starts with a separator, and no segment is empty,
//! `.` or `..`.
use crate::text::{chars_of, string_of};
use vstd::prelude::*;

verus! {

/// Whether position `i` of `s` begins a segment.
pub open spec fn seg_start(s: Seq<char>, i: int) -> bool {
    i == 0 || s[i - 1] == '/'
}

/// Whether position `i` of `s` shows a defect: an empty segment, or a
/// segment equal to `.` or `..` that begins there.
pub open spec fn bad_at(s: Seq<char>, i: int) -> bool {
    ||| (s[i] == '/' && seg_start(s, i))
    ||| (seg_start(s, i) && s[i] == '.' && (i + 1 == s.len() || s[i + 1] == '/'))
    ||| (seg_start(s, i) && s[i] == '.' && i + 1 < s.len() && s[i + 1] == '.' && (i + 2 == s.len()
        || s[i + 2] == '/'))
}

/// Whether no position of `s` shows a defect.
pub open spec fn no_bad_segment(s: Seq<char>) -> bool {
    forall|i: int| 0 <= i < s.len() ==> !bad_at(s, i)
}

/// A file path: non-empty, no trailing separator, every segment non-empty and
/// neither `.` nor `..`.
pub open spec fn valid_file_path(s: Seq<char>) -> bool {
    &&& s.len() > 0
    &&& s.last() != '/'
    &&& no_bad_segment(s)
}

/// A directory path: a file path followed by one separator.
pub open spec fn valid_dir_path(s: Seq<char>) -> bool {
    &&& s.len() > 0
    &&& s.last() == '/'
    &&& valid_file_path(s.drop_last())
}

/// Two file paths joined by a separator form a file path.
pub proof fn lemma_join_valid(a: Seq<char>, b: Seq<char>)
    requires
        valid_file_path(a),
        valid_file_path(b),
    ensures
        valid_file_path(a + seq!['/'] + b),
{
    let s = a + seq!['/'] + b;
    let n = a.len();
    assert forall|i: int| 0 <= i < s.len() implies !bad_at(s, i) by {
        if i < n {
            assert(s[i] == a[i]);
            assert(i > 0 ==> s[i - 1] == a[i - 1]);
            assert(i + 1 < n ==> s[i + 1] == a[i + 1]);
            assert(i + 2 < n ==> s[i + 2] == a[i + 2]);
            assert(!bad_at(a, i));
        } else if i == n {
            assert(s[i - 1] == a.last());
        } else {
            let k = i - n - 1;
            assert(s[i] == b[k]);
            assert(k > 0 ==> s[i - 1] == b[k - 1]);
            assert(k == 0 ==> s[i - 1] == '/');
            assert(k + 1 < b.len() ==> s[i + 1] == b[k + 1]);
            assert(k + 2 < b.len() ==> s[i + 2] == b[k + 2]);
            assert(!bad_at(b, k));
        }
    }
    assert(s.last() == b.last());
}

/// The error for a string that is not a path of the requested kind.
#[derive(Clone, Copy, Debug, PartialEq, Eq, Structural)]
pub struct InvalidPath;

/// Tests position `i` of `s` for a defect.
fn is_bad_at(s: &Vec<char>, i: usize) -> (r: bool)
    requires
        i < s.len(),
    ensures
        r == bad_at(s@, i as int),
{
    let start = i == 0 || s[i - 1] == '/';
    if !start {
        return false;
    }
    let n = s.len();
    if s[i] == '/' {
        return true;
    }
    if s[i] != '.' {
        return false;
    }
    if i + 1 == n || s[i + 1] == '/' {
        return true;
    }
    s[i + 1] == '.' && (i + 2 == n || s[i + 2] == '/')
}

/// Tests every position of `s` for a defect.
fn has_no_bad_segment(s: &Vec<char>) -> (r: bool)
    ensures
        r == no_bad_segment(s@),
{
    let mut i: usize = 0;
    while i < s.len()
        invariant
            i <= s.len(),
            forall|j: int| 0 <= j < i ==> !bad_at(s@, j),
        decreases s.len() - i,
    {
        if is_bad_at(s, i) {
            return false;
        }
        i = i + 1;
    }
    true
}

/// Tests whether `s` is a valid file path.
pub fn is_file_path(s: &Vec<char>) -> (r: bool)
    ensures
        r == valid_file_path(s@),
{
    s.len() > 0 && s[s.len() - 1] != '/' && has_no_bad_segment(s)
}

/// Tests whether `s` is a valid directory path.
pub fn is_dir_path(s: &Vec<char>) -> (r: bool)
    ensures
        r == valid_dir_path(s@),
{
    if s.len() == 0 || s[s.len() - 1] != '/' {
        return false;
    }
    let mut t = s.clone();
    t.pop();
    assert(t@ =~= s@.drop_last());
    is_file_path(&t)
}

/// A file path such as `foo/bar.nwb`.
#[derive(Debug)]
pub struct PurePath(String);

/// A directory path such as `foo/bar/`.
#[derive(Debug)]
pub struct PureDirPath(String);

impl View for PurePath {
    type V = Seq<char>;

    closed spec fn view(&self) -> Seq<char> {
        self.0@
    }
}

impl View for PureDirPath {
    type V = Seq<char>;

    closed spec fn view(&self) -> Seq<char> {
        self.0@
    }
}

impl PartialEq for PurePath {
    fn eq(&self, other: &PurePath) -> (r: bool) {
        self.0 == other.0
    }
}

impl vstd::std_specs::cmp::PartialEqSpecImpl for PurePath {
    open spec fn obeys_eq_spec() -> bool {
        true
    }

    open spec fn eq_spec(&self, other: &PurePath) -> bool {
        self@ == other@
    }
}

impl Eq for PurePath {

}

impl Clone for PurePath {
    fn clone(&self) -> (r: PurePath)
        ensures
            r == *self,
    {
        proof {
            use_type_invariant(self);
        }
        PurePath(self.0.clone())
    }
}

impl PartialEq for PureDirPath {
    fn eq(&self, other: &PureDirPath) -> (r: bool) {
        self.0 == other.0
    }
}

impl vstd::std_specs::cmp::PartialEqSpecImpl for PureDirPath {
    open spec fn obeys_eq_spec() -> bool {
        true
    }

    open spec fn eq_spec(&self, other: &PureDirPath) -> bool {
        self@ == other@
    }
}

impl Eq for PureDirPath {

}

impl Clone for PureDirPath {
    fn clone(&self) -> (r: PureDirPath)
        ensures
            r == *self,
    {
        proof {
            use_type_invariant(self);
        }
        PureDirPath(self.0.clone())
    }
}

impl PurePath {
    /// Well-formedness: the text is a valid file path.
    pub open spec fn wf(&self) -> bool {
        valid_file_path(self@)
    }

    #[verifier::type_invariant]
    spec fn inv(&self) -> bool {
        valid_file_path(self.0@)
    }

    /// Validates `s` as a file path.
    pub fn parse(s: &str) -> (r: Result<PurePath, InvalidPath>)
        ensures
            r is Ok <==> valid_file_path(s@),
            r matches Ok(p) ==> p@ == s@,
    {
        let cs = chars_of(s);
        if is_file_path(&cs) {
            Ok(PurePath(string_of(&cs)))
        } else {
            Err(InvalidPath)
        }
    }

    /// The path as a string; it is always a valid file path.
    pub fn as_str(&self) -> (r: &str)
        ensures
            r@ == self@,
            self.wf(),
    {
        proof {
            use_type_invariant(self);
        }
        self.0.as_str()
    }

    /// The directory path with the same segments: the text with one
    /// separator appended.
    pub fn to_dir_path(&self) -> (r: PureDirPath)
        ensures
            r@ == self@.push('/'),
            r.wf(),
    {
        proof {
            use_type_invariant(self);
        }
        let mut cs = chars_of(self.0.as_str());
        cs.push('/');
        assert(cs@.drop_last() =~= self@);
        PureDirPath(string_of(&cs))
    }

    /// The path with `seg` appended as a further segment.
    pub fn join_one(&self, seg: &PurePath) -> (r: PurePath)
        ensures
            r@ == self@ + seq!['/'] + seg@,
            r.wf(),
    {
        proof {
            use_type_invariant(self);
            use_type_invariant(seg);
            lemma_join_valid(self@, seg@);
        }
        let mut cs = chars_of(self.0.as_str());
        cs.push('/');
        let t = chars_of(seg.0.as_str());
        let mut i: usize = 0;
        let ghost base = cs@;
        while i < t.len()
            invariant
                i <= t.len(),
                cs@ == base + t@.subrange(0, i as int),
            decreases t.len() - i,
        {
            cs.push(t[i]);
            i = i + 1;
            assert(cs@ =~= base + t@.subrange(0, i as int));
        }
        assert(t@.subrange(0, t@.len() as int) =~= t@);
        assert(base =~= self@ + seq!['/']);
        PurePath(string_of(&cs))
    }
}

impl PureDirPath {
    /// Well-formedness: the text is a valid directory path.
    pub open spec fn wf(&self) -> bool {
        valid_dir_path(self@)
    }

    #[verifier::type_invariant]
    spec fn inv(&self) -> bool {
        valid_dir_path(self.0@)
    }

    /// Validates `s` as a directory path.
    pub fn parse(s: &str) -> (r: Result<PureDirPath, InvalidPath>)
        ensures
            r is Ok <==> valid_dir_path(s@),
            r matches Ok(p) ==> p@ == s@,
    {
        let cs = chars_of(s);
        if is_dir_path(&cs) {
            Ok(PureDirPath(string_of(&cs)))
        } else {
            Err(InvalidPath)
        }
    }

    /// The path as a string, with its trailing separator; it is always a
    /// valid directory path.
    pub fn as_str(&self) -> (r: &str)
        ensures
            r@ == self@,
            self.wf(),
    {
        proof {
            use_type_invariant(self);
        }
        self.0.as_str()
    }

    /// The file path with the same segments: the text without its trailing
    /// separator.
    pub fn to_file_path(&self) -> (r: PurePath)
        ensures
            r@ == self@.drop_last(),
            r.wf(),
    {
        proof {
            use_type_invariant(self);
        }
        let mut cs = chars_of(self.0.as_str());
        cs.pop();
        PurePath(string_of(&cs))
    }
}

/// A directory path turned into a file path and back is the same path, and
/// so is a file path turned into a directory path and back.
pub proof fn lemma_dir_file_round_trip(f: PurePath, d: PureDirPath)
    requires
        f.wf(),
        d.wf(),
    ensures
        valid_dir_path(f@.push('/')),
        f@.push('/').drop_last() == f@,
        valid_file_path(d@.drop_last()),
        d@.drop_last().push('/') == d@,
{
    assert(f@.push('/').drop_last() =~= f@);
    assert(d@.drop_last().push('/') =~= d@);
}

} // verus!
