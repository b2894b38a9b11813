//! Patterns typed by the user, and how they score a candidate name.

use vstd::prelude::*;

verus! {

/// What a candidate name must hold for a pattern of each kind.
#[derive(Clone, Copy, Debug, PartialEq, Eq, Structural)]
pub enum PatternKind {
    /// No pattern: every name matches.
    NoPattern,
    /// The raw text must occur in the name as is.
    Literal,
    /// The raw text's characters must occur in the name in order.
    Fuzzy,
    /// The raw text is a regular expression that must match in the name.
    Regex,
}

/// A pattern as the user typed it.
#[derive(Debug)]
pub struct InputPattern {
    pub raw: String,
    pub kind: PatternKind,
}

/// The verdict of the `regex` crate on whether `pattern` compiles.
pub uninterp spec fn regex_valid(pattern: Seq<char>) -> bool;

/// The verdict of the `regex` crate on whether `pattern` matches somewhere in `text`.
pub uninterp spec fn regex_matches(pattern: Seq<char>, text: Seq<char>) -> bool;

/// Relies on `regex::Regex::new`: whether the expression compiles.
#[verifier::external_body]
fn regex_compiles(pattern: &str) -> (r: bool)
    ensures
        r == regex_valid(pattern@),
{
    regex::Regex::new(pattern).is_ok()
}

/// Relies on `regex::Regex::new` and `regex::Regex::is_match`: whether the
/// compiled expression matches somewhere in the text.
#[verifier::external_body]
fn regex_is_match(pattern: &str, text: &str) -> (r: bool)
    requires
        regex_valid(pattern@),
    ensures
        r == regex_matches(pattern@, text@),
{
    match regex::Regex::new(pattern) {
        Ok(re) => re.is_match(text),
        Err(_) => false,
    }
}

/// Whether the match of position `j` is a good one: at the very start of the
/// name, or right after the previous matched character.
pub open spec fn good_match(j: int, prev: bool) -> bool {
    j == 0 || prev
}

/// Fuzzy match of `p[i..]` in `c[j..]`, taking for each pattern character the
/// leftmost occurrence left; `prev` tells whether `c[j - 1]` was matched.
/// The score counts the good matches.
pub open spec fn fuzzy_from(p: Seq<char>, c: Seq<char>, i: int, j: int, prev: bool) -> Option<nat>
    decreases c.len() - j,
{
    if i >= p.len() {
        Some(0)
    } else if j >= c.len() {
        None
    } else if p[i] == c[j] {
        match fuzzy_from(p, c, i + 1, j + 1, true) {
            Some(s) => Some(s + if good_match(j, prev) { 1nat } else { 0nat }),
            None => None,
        }
    } else {
        fuzzy_from(p, c, i, j + 1, false)
    }
}

/// Fuzzy score of `p` against `c`: `None` when `p` is not a subsequence of `c`.
pub open spec fn fuzzy_score(p: Seq<char>, c: Seq<char>) -> Option<nat> {
    fuzzy_from(p, c, 0, 0, false)
}

/// Whether `p` occurs in `c` at position `k`.
pub open spec fn occurs_at(p: Seq<char>, c: Seq<char>, k: int) -> bool {
    0 <= k && k + p.len() <= c.len() && c.subrange(k, k + p.len()) == p
}

/// Literal score: 3 for the whole name, 2 for a prefix, 1 elsewhere.
pub open spec fn literal_score(p: Seq<char>, c: Seq<char>) -> Option<nat> {
    if p == c {
        Some(3)
    } else if occurs_at(p, c, 0) {
        Some(2)
    } else if exists|k: int| occurs_at(p, c, k) {
        Some(1)
    } else {
        None
    }
}

/// The score of a name under a pattern; `None` when the name does not match.
pub open spec fn pattern_score(kind: PatternKind, raw: Seq<char>, name: Seq<char>) -> Option<nat> {
    match kind {
        PatternKind::NoPattern => Some(0),
        PatternKind::Literal => literal_score(raw, name),
        PatternKind::Fuzzy => fuzzy_score(raw, name),
        PatternKind::Regex => if regex_matches(raw, name) {
            Some(1)
        } else {
            None
        },
    }
}

impl Clone for InputPattern {
    fn clone(&self) -> (r: InputPattern)
        ensures
            r == *self,
    {
        InputPattern { raw: self.raw.clone(), kind: self.kind }
    }
}

impl InputPattern {
    /// A pattern is well formed when an active one has text, and a regular
    /// expression compiles.
    pub open spec fn wf(&self) -> bool {
        &&& (self.kind != PatternKind::NoPattern ==> self.raw@.len() > 0)
        &&& (self.kind == PatternKind::Regex ==> regex_valid(self.raw@))
    }

    pub open spec fn is_active(&self) -> bool {
        self.kind != PatternKind::NoPattern
    }

    pub open spec fn score_spec(&self, name: Seq<char>) -> Option<nat> {
        pattern_score(self.kind, self.raw@, name)
    }

    /// The absence of a pattern.
    pub fn none() -> (p: InputPattern)
        ensures
            p.kind == PatternKind::NoPattern,
            p.raw@ == Seq::<char>::empty(),
            p.wf(),
    {
        InputPattern { raw: String::new(), kind: PatternKind::NoPattern }
    }

    /// A fuzzy pattern; empty text gives no pattern.
    pub fn fuzzy(raw: String) -> (p: InputPattern)
        ensures
            p.raw@ == raw@,
            p.kind == if raw@.len() == 0 { PatternKind::NoPattern } else { PatternKind::Fuzzy },
            p.wf(),
    {
        let kind = if raw.as_str().unicode_len() == 0 {
            PatternKind::NoPattern
        } else {
            PatternKind::Fuzzy
        };
        InputPattern { raw, kind }
    }

    /// A literal pattern; empty text gives no pattern.
    pub fn literal(raw: String) -> (p: InputPattern)
        ensures
            p.raw@ == raw@,
            p.kind == if raw@.len() == 0 { PatternKind::NoPattern } else { PatternKind::Literal },
            p.wf(),
    {
        let kind = if raw.as_str().unicode_len() == 0 {
            PatternKind::NoPattern
        } else {
            PatternKind::Literal
        };
        InputPattern { raw, kind }
    }

    /// A regular-expression pattern; empty text gives no pattern, and an
    /// expression that does not compile is refused with a message.
    pub fn regex(raw: String) -> (r: Result<InputPattern, String>)
        ensures
            raw@.len() > 0 && !regex_valid(raw@) <==> r is Err,
            r matches Ok(p) ==> p.raw@ == raw@ && p.wf() && p.kind == if raw@.len() == 0 {
                PatternKind::NoPattern
            } else {
                PatternKind::Regex
            },
    {
        if raw.as_str().unicode_len() == 0 {
            Ok(InputPattern { raw, kind: PatternKind::NoPattern })
        } else if regex_compiles(raw.as_str()) {
            Ok(InputPattern { raw, kind: PatternKind::Regex })
        } else {
            Err(String::from_str("invalid regular expression"))
        }
    }

    pub fn is_none(&self) -> (r: bool)
        ensures
            r == !self.is_active(),
    {
        self.kind == PatternKind::NoPattern
    }

    pub fn is_some(&self) -> (r: bool)
        ensures
            r == self.is_active(),
    {
        !(self.kind == PatternKind::NoPattern)
    }

    /// Hands the pattern out and leaves no pattern in its place.
    pub fn take(&mut self) -> (p: InputPattern)
        ensures
            p == *old(self),
            final(self).kind == PatternKind::NoPattern,
            final(self).raw@ == Seq::<char>::empty(),
    {
        let mut p = InputPattern::none();
        std::mem::swap(self, &mut p);
        p
    }

    /// Scores a candidate name: `None` when it does not match.
    pub fn score_of(&self, name: &str) -> (r: Option<usize>)
        requires
            self.wf(),
        ensures
            r matches Some(s) ==> self.score_spec(name@) == Some(s as nat),
            r is None ==> self.score_spec(name@) is None,
    {
        match self.kind {
            PatternKind::NoPattern => Some(0),
            PatternKind::Literal => {
                let p = chars_of(self.raw.as_str());
                let c = chars_of(name);
                literal_score_exec(&p, &c)
            },
            PatternKind::Fuzzy => {
                let p = chars_of(self.raw.as_str());
                let c = chars_of(name);
                fuzzy_score_exec(&p, &c)
            },
            PatternKind::Regex => {
                if regex_is_match(self.raw.as_str(), name) {
                    Some(1)
                } else {
                    None
                }
            },
        }
    }
}

/// The characters of a string.
pub fn chars_of(s: &str) -> (r: Vec<char>)
    ensures
        r@ == s@,
{
    let n = s.unicode_len();
    let mut r: Vec<char> = Vec::new();
    let mut i: usize = 0;
    while i < n
        invariant
            n == s@.len(),
            i <= n,
            r@ == s@.subrange(0, i as int),
        decreases n - i,
    {
        r.push(s.get_char(i));
        i = i + 1;
    }
    assert(r@ =~= s@);
    r
}

/// Fuzzy score of `p` against `c`, as `fuzzy_score` states it.
pub fn fuzzy_score_exec(p: &Vec<char>, c: &Vec<char>) -> (r: Option<usize>)
    ensures
        r matches Some(s) ==> fuzzy_score(p@, c@) == Some(s as nat),
        r is None ==> fuzzy_score(p@, c@) is None,
{
    let mut i: usize = 0;
    let mut j: usize = 0;
    let mut prev = false;
    let mut acc: usize = 0;
    while i < p.len() && j < c.len()
        invariant
            i <= p@.len(),
            j <= c@.len(),
            acc <= i,
            j == 0 ==> !prev,
            fuzzy_score(p@, c@) == match fuzzy_from(p@, c@, i as int, j as int, prev) {
                Some(s) => Some((s + acc) as nat),
                None => None,
            },
        decreases c@.len() - j,
    {
        if p[i] == c[j] {
            if j == 0 || prev {
                acc = acc + 1;
            }
            i = i + 1;
            prev = true;
        } else {
            prev = false;
        }
        j = j + 1;
    }
    if i == p.len() {
        Some(acc)
    } else {
        None
    }
}

/// Whether `p` occurs in `c` at position `k`.
fn occurs_at_exec(p: &Vec<char>, c: &Vec<char>, k: usize) -> (r: bool)
    ensures
        r == occurs_at(p@, c@, k as int),
{
    if k > c.len() || p.len() > c.len() - k {
        return false;
    }
    let cl = c.len();
    let mut i: usize = 0;
    while i < p.len()
        invariant
            cl == c@.len(),
            k + p@.len() <= c@.len(),
            i <= p@.len(),
            forall|t: int| 0 <= t < i ==> c@[k + t] == p@[t],
        decreases p@.len() - i,
    {
        if c[k + i] != p[i] {
            assert(c@.subrange(k as int, k + p@.len())[i as int] != p@[i as int]);
            return false;
        }
        i = i + 1;
    }
    assert(c@.subrange(k as int, k + p@.len()) =~= p@);
    true
}

/// Literal score of `p` against `c`, as `literal_score` states it.
pub fn literal_score_exec(p: &Vec<char>, c: &Vec<char>) -> (r: Option<usize>)
    ensures
        r matches Some(s) ==> literal_score(p@, c@) == Some(s as nat),
        r is None ==> literal_score(p@, c@) is None,
{
    if p.len() == c.len() && occurs_at_exec(p, c, 0) {
        assert(c@.subrange(0, c@.len() as int) =~= c@);
        return Some(3);
    }
    if occurs_at_exec(p, c, 0) {
        assert(p@ != c@) by {
            if p@ == c@ {
                assert(p@.len() == c@.len());
            }
        }
        return Some(2);
    }
    assert(p@ != c@) by {
        if p@ == c@ {
            assert(c@.subrange(0, c@.len() as int) =~= c@);
        }
    }
    assert(p@.len() > 0) by {
        if p@.len() == 0 {
            assert(c@.subrange(0, 0) =~= p@);
        }
    }
    let mut k: usize = 1;
    while k < c.len()
        invariant
            1 <= k,
            k <= c@.len() || c@.len() == 0,
            p@.len() > 0,
            forall|t: int| 0 <= t < k ==> !occurs_at(p@, c@, t),
        decreases c@.len() - k,
    {
        if occurs_at_exec(p, c, k) {
            return Some(1);
        }
        k = k + 1;
    }
    assert forall|t: int| !occurs_at(p@, c@, t) by {
        if 0 <= t < k {
        }
    }
    None
}

} // verus!
