use vstd::prelude::*;
use vstd::std_specs::iter::IteratorSpec;
use vstd::string::{axiom_spec_iter, next_postcondition};

verus! {

/// Code point of `c` after ASCII lowercasing: `A`..=`Z` move to `a`..=`z`,
/// every other character stays as it is.
pub open spec fn ascii_lower_code(c: char) -> int {
    let n = c as u32 as int;
    if 65 <= n <= 90 {
        n + 32
    } else {
        n
    }
}

/// Code point of `c` after ASCII uppercasing.
pub open spec fn ascii_upper_code(c: char) -> int {
    let n = c as u32 as int;
    if 97 <= n <= 122 {
        n - 32
    } else {
        n
    }
}

pub open spec fn is_ascii_text(s: Seq<char>) -> bool {
    forall|i: int| 0 <= i < s.len() ==> (#[trigger] s[i]) as u32 <= 127
}

/// `t` is `s` with every ASCII letter lowercased.
pub open spec fn is_ascii_lowering(s: Seq<char>, t: Seq<char>) -> bool {
    &&& t.len() == s.len()
    &&& forall|i: int| 0 <= i < s.len() ==> (#[trigger] t[i]) as u32 as int == ascii_lower_code(s[i])
}

/// `t` is `s` with every ASCII letter uppercased.
pub open spec fn is_ascii_uppering(s: Seq<char>, t: Seq<char>) -> bool {
    &&& t.len() == s.len()
    &&& forall|i: int| 0 <= i < s.len() ==> (#[trigger] t[i]) as u32 as int == ascii_upper_code(s[i])
}

/// Full Unicode lowercase mapping of a string, as `str::to_lowercase` computes it.
pub uninterp spec fn unicode_lower(s: Seq<char>) -> Seq<char>;

/// The lowercase form used by predicates. On ASCII text it is letter-by-letter
/// ASCII lowering; elsewhere it is the full Unicode mapping.
pub open spec fn folded(s: Seq<char>) -> Seq<char> {
    if is_ascii_text(s) {
        Seq::new(s.len(), |i: int| ascii_lower_code(s[i]) as char)
    } else {
        unicode_lower(s)
    }
}

/// ASCII case-insensitive equality, as `str::eq_ignore_ascii_case` decides it.
pub open spec fn eq_ignore_ascii_case(a: Seq<char>, b: Seq<char>) -> bool {
    &&& a.len() == b.len()
    &&& forall|i: int| 0 <= i < a.len() ==> ascii_lower_code(#[trigger] a[i]) == ascii_lower_code(b[i])
}

/// `p` occurs in `s` at position `i`.
pub open spec fn occurs_at(p: Seq<char>, s: Seq<char>, i: int) -> bool {
    0 <= i && i + p.len() <= s.len() && s.subrange(i, i + p.len() as int) == p
}

pub open spec fn is_prefix(p: Seq<char>, s: Seq<char>) -> bool {
    p.len() <= s.len() && s.subrange(0, p.len() as int) == p
}

pub open spec fn is_suffix(p: Seq<char>, s: Seq<char>) -> bool {
    p.len() <= s.len() && s.subrange(s.len() - p.len(), s.len() as int) == p
}

pub open spec fn is_infix(p: Seq<char>, s: Seq<char>) -> bool {
    exists|i: int| 0 <= i && i + p.len() <= s.len() && #[trigger] s.subrange(i, i + p.len() as int) == p
}

/// Relies on `str::to_lowercase`: the result is a function of the characters,
/// and ASCII text is lowercased letter by letter.
#[verifier::external_body]
pub(crate) fn lowercase(s: &str) -> (r: String)
    ensures
        r@ == folded(s@),
        !is_ascii_text(s@) ==> r@ == unicode_lower(s@),
{
    s.to_lowercase()
}

fn text_starts_with(s: &str, p: &str) -> (r: bool)
    ensures
        r == is_prefix(p@, s@),
{
    let sv = chars_of(s);
    let pv = chars_of(p);
    occurs(&pv, &sv, 0)
}

fn text_ends_with(s: &str, p: &str) -> (r: bool)
    ensures
        r == is_suffix(p@, s@),
{
    let sv = chars_of(s);
    let pv = chars_of(p);
    if pv.len() > sv.len() {
        return false;
    }
    occurs(&pv, &sv, sv.len() - pv.len())
}

fn text_contains(s: &str, p: &str) -> (r: bool)
    ensures
        r == is_infix(p@, s@),
{
    let sv = chars_of(s);
    let pv = chars_of(p);
    if pv.len() > sv.len() {
        return false;
    }
    let last = sv.len() - pv.len();
    let mut i: usize = 0;
    loop
        invariant
            sv@ == s@,
            pv@ == p@,
            last == sv@.len() - pv@.len(),
            i <= last,
            forall|j: int| 0 <= j < i ==> !occurs_at(pv@, sv@, j),
        ensures
            forall|j: int| 0 <= j <= last ==> !occurs_at(pv@, sv@, j),
        decreases last - i,
    {
        if occurs(&pv, &sv, i) {
            assert(s@.subrange(i as int, i + p@.len() as int) == p@);
            return true;
        }
        if i == last {
            break;
        }
        i = i + 1;
    }
    assert forall|j: int| 0 <= j && j + p@.len() <= s@.len() implies #[trigger] s@.subrange(j, j + p@.len() as int) != p@ by {
        assert(!occurs_at(pv@, sv@, j));
    }
    false
}

fn ascii_lower(c: char) -> (r: u32)
    ensures
        r as int == ascii_lower_code(c),
{
    let n = c as u32;
    if 65 <= n && n <= 90 {
        n + 32
    } else {
        n
    }
}

/// Whether `a` and `b` are equal once ASCII letters are lowercased; other
/// characters must match exactly.
pub(crate) fn text_eq_ignore_ascii_case(a: &str, b: &str) -> (r: bool)
    ensures
        r == eq_ignore_ascii_case(a@, b@),
{
    let av = chars_of(a);
    let bv = chars_of(b);
    if av.len() != bv.len() {
        return false;
    }
    let mut i: usize = 0;
    while i < av.len()
        invariant
            av@ == a@,
            bv@ == b@,
            av@.len() == bv@.len(),
            i <= av@.len(),
            forall|j: int| 0 <= j < i ==> ascii_lower_code(#[trigger] a@[j]) == ascii_lower_code(b@[j]),
        decreases av@.len() - i,
    {
        if ascii_lower(av[i]) != ascii_lower(bv[i]) {
            return false;
        }
        i = i + 1;
    }
    true
}

/// Whether `a` and `b` hold the same characters.
pub(crate) fn text_eq(a: &str, b: &str) -> (r: bool)
    ensures
        r == (a@ == b@),
{
    let av = chars_of(a);
    let bv = chars_of(b);
    if av.len() != bv.len() {
        return false;
    }
    let r = occurs(&bv, &av, 0);
    assert(a@.subrange(0, b@.len() as int) =~= a@);
    r
}

/// The characters of `s`.
pub(crate) fn chars_of(s: &str) -> (r: Vec<char>)
    ensures
        r@ == s@,
{
    broadcast use axiom_spec_iter, next_postcondition;

    let mut r: Vec<char> = Vec::new();
    let mut it = s.chars();
    loop
        invariant
            r@ + it.remaining() == s@,
            it.obeys_prophetic_iter_laws(),
            it.decrease() is Some,
        ensures
            r@ == s@,
        decreases it.decrease()->0,
    {
        match it.next() {
            Some(c) => {
                r.push(c);
                assert(r@ + it.remaining() =~= s@);
            },
            None => {
                assert(r@ =~= s@);
                break;
            },
        }
    }
    r
}

/// Whether `p` occurs in `s` at position `i`.
pub(crate) fn occurs(p: &Vec<char>, s: &Vec<char>, i: usize) -> (r: bool)
    ensures
        r == occurs_at(p@, s@, i as int),
{
    if i > s.len() || p.len() > s.len() - i {
        return false;
    }
    let n = s.len();
    let mut k: usize = 0;
    while k < p.len()
        invariant
            n == s@.len(),
            i + p@.len() <= s@.len(),
            k <= p@.len(),
            forall|m: int| 0 <= m < k ==> s@[i + m] == p@[m],
        decreases p@.len() - k,
    {
        if s[i + k] != p[k] {
            assert(s@.subrange(i as int, i + p@.len())[k as int] != p@[k as int]);
            return false;
        }
        k = k + 1;
    }
    assert(s@.subrange(i as int, i + p@.len()) =~= p@);
    true
}

/// A case-insensitive boolean expression over text.
///
/// The candidate is lowercased once, and the whole tree is evaluated on that
/// lowercased text. `StartsWith`, `EndsWith` and `Contains` lowercase their
/// literal too; `Exact` compares the lowercased candidate with its literal
/// ASCII-case-insensitively.
#[derive(Debug)]
pub enum TextPredicate {
    StartsWith(String),
    EndsWith(String),
    Contains(String),
    Exact(String),
    Not(Box<TextPredicate>),
    And(Box<TextPredicate>, Box<TextPredicate>),
    Or(Box<TextPredicate>, Box<TextPredicate>),
}

impl TextPredicate {
    /// Whether the predicate holds of `t`, text that is already lowercased.
    pub open spec fn holds(self, t: Seq<char>) -> bool
        decreases self,
    {
        match self {
            TextPredicate::StartsWith(x) => is_prefix(folded(x@), t),
            TextPredicate::EndsWith(x) => is_suffix(folded(x@), t),
            TextPredicate::Contains(x) => is_infix(folded(x@), t),
            TextPredicate::Exact(x) => eq_ignore_ascii_case(t, x@),
            TextPredicate::Not(p) => !p.holds(t),
            TextPredicate::And(a, b) => a.holds(t) && b.holds(t),
            TextPredicate::Or(a, b) => a.holds(t) || b.holds(t),
        }
    }

    /// Whether the predicate accepts the text `s`.
    pub open spec fn accepts(self, s: Seq<char>) -> bool {
        self.holds(folded(s))
    }

    pub fn exact(text: &str) -> (r: TextPredicate)
        ensures
            r matches TextPredicate::Exact(x) && x@ == text@,
    {
        TextPredicate::Exact(text.to_owned())
    }

    pub fn starts_with(text: &str) -> (r: TextPredicate)
        ensures
            r matches TextPredicate::StartsWith(x) && x@ == text@,
    {
        TextPredicate::StartsWith(text.to_owned())
    }

    pub fn ends_with(text: &str) -> (r: TextPredicate)
        ensures
            r matches TextPredicate::EndsWith(x) && x@ == text@,
    {
        TextPredicate::EndsWith(text.to_owned())
    }

    pub fn contains(text: &str) -> (r: TextPredicate)
        ensures
            r matches TextPredicate::Contains(x) && x@ == text@,
    {
        TextPredicate::Contains(text.to_owned())
    }

    /// Evaluates the predicate on `text`.
    pub fn test(&self, text: &str) -> (r: bool)
        ensures
            r == self.accepts(text@),
    {
        let lowered = lowercase(text);
        self.test_folded(lowered.as_str())
    }

    /// Evaluates the predicate on text that is already lowercased.
    fn test_folded(&self, t: &str) -> (r: bool)
        ensures
            r == self.holds(t@),
        decreases self,
    {
        match self {
            TextPredicate::StartsWith(x) => {
                let lx = lowercase(x.as_str());
                text_starts_with(t, lx.as_str())
            },
            TextPredicate::EndsWith(x) => {
                let lx = lowercase(x.as_str());
                text_ends_with(t, lx.as_str())
            },
            TextPredicate::Contains(x) => {
                let lx = lowercase(x.as_str());
                text_contains(t, lx.as_str())
            },
            TextPredicate::Exact(x) => text_eq_ignore_ascii_case(t, x.as_str()),
            TextPredicate::Not(p) => !p.test_folded(t),
            TextPredicate::And(a, b) => a.test_folded(t) && b.test_folded(t),
            TextPredicate::Or(a, b) => a.test_folded(t) || b.test_folded(t),
        }
    }

    /// The conjunction of two predicates.
    pub fn and(self, rhs: TextPredicate) -> (r: TextPredicate)
        ensures
            r == TextPredicate::And(Box::new(self), Box::new(rhs)),
    {
        TextPredicate::And(Box::new(self), Box::new(rhs))
    }

    /// The disjunction of two predicates.
    pub fn or(self, rhs: TextPredicate) -> (r: TextPredicate)
        ensures
            r == TextPredicate::Or(Box::new(self), Box::new(rhs)),
    {
        TextPredicate::Or(Box::new(self), Box::new(rhs))
    }

    /// The negation of a predicate.
    pub fn negate(self) -> (r: TextPredicate)
        ensures
            r == TextPredicate::Not(Box::new(self)),
    {
        TextPredicate::Not(Box::new(self))
    }
}

impl vstd::std_specs::ops::BitAndSpecImpl for TextPredicate {
    open spec fn obeys_bitand_spec() -> bool {
        true
    }

    open spec fn bitand_req(self, rhs: TextPredicate) -> bool {
        true
    }

    open spec fn bitand_spec(self, rhs: TextPredicate) -> TextPredicate {
        TextPredicate::And(Box::new(self), Box::new(rhs))
    }
}

impl vstd::std_specs::ops::BitOrSpecImpl for TextPredicate {
    open spec fn obeys_bitor_spec() -> bool {
        true
    }

    open spec fn bitor_req(self, rhs: TextPredicate) -> bool {
        true
    }

    open spec fn bitor_spec(self, rhs: TextPredicate) -> TextPredicate {
        TextPredicate::Or(Box::new(self), Box::new(rhs))
    }
}

impl vstd::std_specs::ops::NotSpecImpl for TextPredicate {
    open spec fn obeys_not_spec() -> bool {
        true
    }

    open spec fn not_req(self) -> bool {
        true
    }

    open spec fn not_spec(self) -> TextPredicate {
        TextPredicate::Not(Box::new(self))
    }
}

impl core::ops::BitAnd for TextPredicate {
    type Output = TextPredicate;

    fn bitand(self, rhs: TextPredicate) -> TextPredicate {
        self.and(rhs)
    }
}

impl core::ops::BitOr for TextPredicate {
    type Output = TextPredicate;

    fn bitor(self, rhs: TextPredicate) -> TextPredicate {
        self.or(rhs)
    }
}

impl core::ops::Not for TextPredicate {
    type Output = TextPredicate;

    fn not(self) -> TextPredicate {
        self.negate()
    }
}

/// What a predicate decides depends on the candidate only through its lowercase form.
pub proof fn lemma_accepts_through_folded(p: TextPredicate, s: Seq<char>, t: Seq<char>)
    requires
        folded(s) == folded(t),
    ensures
        p.accepts(s) == p.accepts(t),
{
}

/// For ASCII text, a predicate gives the same answer on the text and on its
/// uppercase form.
pub proof fn lemma_ascii_case_insensitive(p: TextPredicate, s: Seq<char>, upper: Seq<char>)
    requires
        is_ascii_text(s),
        is_ascii_uppering(s, upper),
    ensures
        p.accepts(s) == p.accepts(upper),
{
    assert forall|i: int| 0 <= i < upper.len() implies (#[trigger] upper[i]) as u32 <= 127 by {
        assert(s[i] as u32 <= 127);
    }
    assert(folded(s) =~= folded(upper)) by {
        assert forall|i: int| 0 <= i < s.len() implies ascii_lower_code(#[trigger] s[i])
            == ascii_lower_code(upper[i]) by {
            assert(s[i] as u32 <= 127);
        }
    }
    lemma_accepts_through_folded(p, s, upper);
}

/// A conjunction accepts exactly when both operands accept.
pub proof fn lemma_and_law(a: TextPredicate, b: TextPredicate, s: Seq<char>)
    ensures
        TextPredicate::And(Box::new(a), Box::new(b)).accepts(s) == (a.accepts(s) && b.accepts(s)),
{
}

/// A disjunction accepts exactly when either operand accepts.
pub proof fn lemma_or_law(a: TextPredicate, b: TextPredicate, s: Seq<char>)
    ensures
        TextPredicate::Or(Box::new(a), Box::new(b)).accepts(s) == (a.accepts(s) || b.accepts(s)),
{
}

/// A negation accepts exactly when its operand rejects, and a double negation
/// decides as its operand does.
pub proof fn lemma_not_law(a: TextPredicate, s: Seq<char>)
    ensures
        TextPredicate::Not(Box::new(a)).accepts(s) == !a.accepts(s),
        TextPredicate::Not(Box::new(TextPredicate::Not(Box::new(a)))).accepts(s) == a.accepts(s),
{
    let t = folded(s);
    assert(TextPredicate::Not(Box::new(a)).holds(t) == !a.holds(t));
}

/// `StartsWith`, `EndsWith` and `Contains` with an empty literal accept every text.
pub proof fn lemma_empty_literal_matches(x: String, s: Seq<char>)
    requires
        x@.len() == 0,
    ensures
        TextPredicate::StartsWith(x).accepts(s),
        TextPredicate::EndsWith(x).accepts(s),
        TextPredicate::Contains(x).accepts(s),
{
    let e = folded(x@);
    let t = folded(s);
    assert(e =~= Seq::<char>::empty());
    assert(t.subrange(0, 0) =~= e);
    assert(t.subrange(0, 0 + e.len() as int) == e);
    assert(t.subrange(t.len() as int, t.len() as int) =~= e);
}

} // verus!
