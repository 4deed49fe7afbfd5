//! File names in the collection: the slug that a title gives, and the
//! numbered variants of it that settle a name collision.

use vstd::prelude::*;
use crate::title::is_white_space;
use vstd::relations::injective_on;
use vstd::set_lib::{lemma_int_range, lemma_len_subset, lemma_map_size, set_int_range};

verus! {

/// What `slug::slugify` makes of a text. Beyond the facts that its wrapper
/// states, nothing is assumed of it.
pub uninterp spec fn slug_of(s: Seq<char>) -> Seq<char>;

/// The characters a slug is made of: `a`-`z`, `0`-`9` and `-`.
pub open spec fn is_slug_char(c: char) -> bool {
    ('a' <= c && c <= 'z') || ('0' <= c && c <= '9') || c == '-'
}

/// A slug: slug characters only, never two dashes in a row, and no dash at
/// either end.
pub open spec fn is_slug(t: Seq<char>) -> bool {
    &&& forall|i: int| 0 <= i < t.len() ==> is_slug_char(#[trigger] t[i])
    &&& forall|i: int| 0 <= i < t.len() - 1 ==> !(#[trigger] t[i] == '-' && t[i + 1] == '-')
    &&& t.len() > 0 ==> t[0] != '-' && t.last() != '-'
}

/// A text that can stand as a file name's stem in a single directory:
/// no white space and no path separator.
pub open spec fn is_file_safe(t: Seq<char>) -> bool {
    forall|i: int|
        0 <= i < t.len() ==> !is_white_space(#[trigger] t[i]) && t[i] != '/' && t[i] != '\\'
}

/// Relies on `slug::slugify`: its result is built of `a`-`z`, `0`-`9` and
/// `-` only, never holds `--`, never starts or ends with `-`, and is empty
/// for an empty text (slug 0.1.6, `_slugify`).
#[verifier::external_body]
fn slugify(s: &str) -> (r: String)
    ensures
        r@ == slug_of(s@),
        is_slug(r@),
        s@.len() == 0 ==> r@.len() == 0,
{
    slug::slugify(s)
}

/// The stem of the file name for `title`: its slug. The same title always
/// gives the same stem, and a stem never holds white space or a path
/// separator.
pub fn file_stem(title: &str) -> (r: String)
    ensures
        r@ == slug_of(title@),
        is_slug(r@),
        is_file_safe(r@),
        title@.len() == 0 ==> r@.len() == 0,
{
    let r = slugify(title);
    assert forall|i: int| 0 <= i < r@.len() implies !is_white_space(#[trigger] r@[i])
        && r@[i] != '/' && r@[i] != '\\' by {
        assert(is_slug_char(r@[i]));
    }
    r
}

/// The decimal digit for `d < 10`.
pub open spec fn digit_char(d: nat) -> char {
    seq!['0', '1', '2', '3', '4', '5', '6', '7', '8', '9'][d as int]
}

/// The decimal form of `n`, without leading zeros.
pub open spec fn decimal(n: nat) -> Seq<char>
    decreases n,
{
    if n < 10 {
        seq![digit_char(n)]
    } else {
        decimal(n / 10).push(digit_char(n % 10))
    }
}

/// The extension of every document in the collection.
pub open spec fn extension() -> Seq<char> {
    seq!['.', 'm', 'd']
}

/// The file name tried at `attempt` for a document whose stem is `stem`:
/// the stem itself first, then the stem with `1`, `2`, ... appended.
pub open spec fn file_name(stem: Seq<char>, attempt: nat) -> Seq<char> {
    if attempt == 0 {
        stem + extension()
    } else {
        stem + decimal(attempt) + extension()
    }
}

fn digit_str(d: usize) -> (r: &'static str)
    requires
        d < 10,
    ensures
        r@ == seq![digit_char(d as nat)],
{
    proof {
        reveal_strlit("0");
        reveal_strlit("1");
        reveal_strlit("2");
        reveal_strlit("3");
        reveal_strlit("4");
        reveal_strlit("5");
        reveal_strlit("6");
        reveal_strlit("7");
        reveal_strlit("8");
        reveal_strlit("9");
    }
    let r = if d == 0 {
        "0"
    } else if d == 1 {
        "1"
    } else if d == 2 {
        "2"
    } else if d == 3 {
        "3"
    } else if d == 4 {
        "4"
    } else if d == 5 {
        "5"
    } else if d == 6 {
        "6"
    } else if d == 7 {
        "7"
    } else if d == 8 {
        "8"
    } else {
        "9"
    };
    assert(r@ =~= seq![digit_char(d as nat)]);
    r
}

/// The decimal form of `n`.
pub fn decimal_string(n: usize) -> (r: String)
    ensures
        r@ == decimal(n as nat),
    decreases n,
{
    if n < 10 {
        String::from_str(digit_str(n))
    } else {
        let mut r = decimal_string(n / 10);
        r.append(digit_str(n % 10));
        r
    }
}

/// The file name tried at `attempt` for the stem `stem`.
pub fn file_name_for(stem: &str, attempt: usize) -> (r: String)
    ensures
        r@ == file_name(stem@, attempt as nat),
{
    let mut r = String::from_str(stem);
    if attempt > 0 {
        let digits = decimal_string(attempt);
        r.append(digits.as_str());
    }
    proof {
        reveal_strlit(".md");
    }
    r.append(".md");
    assert(".md"@ =~= extension());
    r
}

proof fn lemma_digit_char_injective(a: nat, b: nat)
    requires
        a < 10,
        b < 10,
        digit_char(a) == digit_char(b),
    ensures
        a == b,
{
}

proof fn lemma_decimal_len(n: nat)
    ensures
        decimal(n).len() >= 1,
        n >= 10 ==> decimal(n).len() >= 2,
    decreases n,
{
    if n >= 10 {
        lemma_decimal_len(n / 10);
    }
}

proof fn lemma_decimal_injective(a: nat, b: nat)
    requires
        decimal(a) == decimal(b),
    ensures
        a == b,
    decreases a,
{
    lemma_decimal_len(a);
    lemma_decimal_len(b);
    if a < 10 && b < 10 {
        assert(decimal(a)[0] == digit_char(a));
        assert(decimal(b)[0] == digit_char(b));
        lemma_digit_char_injective(a, b);
    } else if a >= 10 && b >= 10 {
        let da = decimal(a);
        let db = decimal(b);
        assert(da.last() == db.last());
        assert(da.drop_last() =~= decimal(a / 10));
        assert(db.drop_last() =~= decimal(b / 10));
        lemma_digit_char_injective(a % 10, b % 10);
        lemma_decimal_injective(a / 10, b / 10);
    }
}

/// Different attempts try different file names.
pub proof fn lemma_file_name_injective(stem: Seq<char>, a: nat, b: nat)
    requires
        file_name(stem, a) == file_name(stem, b),
    ensures
        a == b,
{
    lemma_decimal_len(a);
    lemma_decimal_len(b);
    let fa = file_name(stem, a);
    let n = stem.len();
    if a > 0 && b > 0 {
        assert(fa.subrange(n as int, fa.len() - 3) =~= decimal(a));
        assert(file_name(stem, b).subrange(n as int, fa.len() - 3) =~= decimal(b));
        lemma_decimal_injective(a, b);
    } else if a > 0 || b > 0 {
        assert(fa.len() != file_name(stem, b).len());
    }
}

/// The search for a free file name: the stem, and the attempt whose name
/// is tried now.
pub struct Placement {
    pub stem: String,
    pub attempt: usize,
}

/// What the search asks for next.
pub enum PlacementStep {
    /// Find out whether a file of this name exists, and report it.
    Probe(String),
    /// Move the document to this name: no file had it when it was probed.
    Settle(String),
    /// Every numbered name up to the largest counter is taken.
    Exhausted,
}

impl Placement {
    /// A search that starts at the unnumbered name.
    pub fn new(stem: String) -> (p: Placement)
        ensures
            p.stem == stem,
            p.attempt == 0,
    {
        Placement { stem, attempt: 0 }
    }

    /// The name tried now.
    pub fn candidate(&self) -> (r: String)
        ensures
            r@ == file_name(self.stem@, self.attempt as nat),
    {
        file_name_for(self.stem.as_str(), self.attempt)
    }

    /// Takes in whether the name tried now is taken. A free name settles
    /// the search on it; a taken one moves it to the next number.
    pub fn next(&mut self, taken: bool) -> (r: PlacementStep)
        ensures
            final(self).stem == old(self).stem,
            !taken ==> final(self).attempt == old(self).attempt && r is Settle
                && r->Settle_0@ == file_name(old(self).stem@, old(self).attempt as nat),
            taken && old(self).attempt < usize::MAX ==> final(self).attempt == old(self).attempt
                + 1 && r is Probe && r->Probe_0@ == file_name(
                old(self).stem@,
                final(self).attempt as nat,
            ),
            taken && old(self).attempt == usize::MAX ==> final(self).attempt == old(self).attempt
                && r is Exhausted,
    {
        if !taken {
            PlacementStep::Settle(self.candidate())
        } else if self.attempt < usize::MAX {
            self.attempt = self.attempt + 1;
            PlacementStep::Probe(self.candidate())
        } else {
            PlacementStep::Exhausted
        }
    }
}

/// The names held in a list of file names.
pub open spec fn names(v: Seq<String>) -> Seq<Seq<char>> {
    v.map_values(|s: String| s@)
}

/// `attempt` gives the first name for `stem` that `taken` lacks.
pub open spec fn is_first_free(taken: Seq<Seq<char>>, stem: Seq<char>, attempt: nat) -> bool {
    &&& !taken.contains(file_name(stem, attempt))
    &&& forall|j: nat| j < attempt ==> taken.contains(#[trigger] file_name(stem, j))
}

/// If the names of the first `m` attempts are all in `taken`, `taken`
/// holds at least `m` names.
proof fn lemma_taken_names_bound(taken: Seq<Seq<char>>, stem: Seq<char>, m: nat)
    requires
        forall|j: nat| j < m ==> taken.contains(#[trigger] file_name(stem, j)),
    ensures
        m <= taken.len(),
{
    broadcast use vstd::seq_lib::seq_to_set_is_finite;

    let f = |j: int| file_name(stem, j as nat);
    let tried = set_int_range(0, m as int);
    lemma_int_range(0, m as int);
    assert(injective_on(f, tried)) by {
        assert forall|x: int, y: int|
            tried.contains(x) && tried.contains(y) && #[trigger] f(x) == #[trigger] f(
                y,
            ) implies x == y by {
            lemma_file_name_injective(stem, x as nat, y as nat);
        }
    }
    lemma_map_size(tried, tried.map(f), f);
    assert(tried.map(f).subset_of(taken.to_set())) by {
        assert forall|n: Seq<char>| tried.map(f).contains(n) implies taken.to_set().contains(n) by {
            let x = choose|x: int| tried.contains(x) && n == f(x);
            assert(taken.contains(file_name(stem, x as nat)));
        }
    }
    taken.lemma_cardinality_of_set();
    lemma_len_subset(tried.map(f), taken.to_set());
}

/// Collisions settle on the first free number: where the names of attempts
/// `0` to `k - 1` for a stem are taken and that of attempt `k` is not,
/// attempt `k` is the only one that qualifies; in an empty directory it is
/// the unnumbered name.
pub proof fn lemma_collision_resolution(taken: Seq<Seq<char>>, stem: Seq<char>, k: nat)
    requires
        forall|j: nat| j < k ==> taken.contains(#[trigger] file_name(stem, j)),
        !taken.contains(file_name(stem, k)),
    ensures
        is_first_free(taken, stem, k),
        forall|m: nat| is_first_free(taken, stem, m) ==> m == k,
        is_first_free(Seq::empty(), stem, 0),
{
    assert forall|m: nat| is_first_free(taken, stem, m) implies m == k by {
        if m < k {
            assert(taken.contains(file_name(stem, m)));
        } else if m > k {
            assert(taken.contains(file_name(stem, k)));
        }
    }
}

fn is_listed(taken: &Vec<String>, name: &String) -> (r: bool)
    ensures
        r == names(taken@).contains(name@),
{
    let mut i: usize = 0;
    while i < taken.len()
        invariant
            i <= taken.len(),
            forall|k: int| 0 <= k < i ==> taken@[k]@ != name@,
        decreases taken.len() - i,
    {
        if taken[i] == *name {
            assert(names(taken@)[i as int] == name@);
            return true;
        }
        i += 1;
    }
    assert forall|k: int| 0 <= k < names(taken@).len() implies names(taken@)[k] != name@ by {
        assert(names(taken@)[k] == taken@[k]@);
    }
    false
}

/// The name that a document of stem `stem` gets in a directory whose files
/// are `taken`: the unnumbered name if it is free, else the stem with the
/// smallest number `1`, `2`, ... whose name is free.
pub fn resolve_name(stem: &str, taken: &Vec<String>) -> (r: String)
    ensures
        exists|k: nat| is_first_free(names(taken@), stem@, k) && r@ == file_name(stem@, k),
{
    let ghost listed = names(taken@);
    let mut placement = Placement::new(String::from_str(stem));
    let mut name = placement.candidate();
    loop
        invariant
            placement.stem@ == stem@,
            listed == names(taken@),
            name@ == file_name(stem@, placement.attempt as nat),
            forall|j: nat| j < placement.attempt ==> listed.contains(#[trigger] file_name(stem@, j)),
            placement.attempt <= listed.len(),
            listed.len() == taken.len(),
        decreases listed.len() - placement.attempt,
    {
        let is_taken = is_listed(taken, &name);
        if is_taken {
            proof {
                assert forall|j: nat| j < placement.attempt + 1 implies listed.contains(
                    #[trigger] file_name(stem@, j),
                ) by {
                    if j == placement.attempt as nat {
                        assert(file_name(stem@, j) == name@);
                    }
                }
                lemma_taken_names_bound(listed, stem@, (placement.attempt + 1) as nat);
            }
        }
        match placement.next(is_taken) {
            PlacementStep::Settle(found) => {
                assert(is_first_free(listed, stem@, placement.attempt as nat));
                return found;
            },
            PlacementStep::Probe(tried) => {
                name = tried;
            },
            PlacementStep::Exhausted => {
                assert(false);
                return name;
            },
        }
    }
}

} // verus!
