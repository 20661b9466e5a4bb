use vstd::prelude::*;

verus! {

/// The character for a decimal digit.
pub open spec fn digit_char(d: nat) -> char {
    if d == 0 { '0' }
    else if d == 1 { '1' }
    else if d == 2 { '2' }
    else if d == 3 { '3' }
    else if d == 4 { '4' }
    else if d == 5 { '5' }
    else if d == 6 { '6' }
    else if d == 7 { '7' }
    else if d == 8 { '8' }
    else { '9' }
}

/// The base-ten digits of `n`, most significant first, without sign or padding.
pub open spec fn decimal(n: nat) -> Seq<char>
    decreases n,
{
    if n < 10 {
        seq![digit_char(n)]
    } else {
        decimal(n / 10).push(digit_char(n % 10))
    }
}

proof fn lemma_digit_char_injective(a: nat, b: nat)
    requires
        a < 10,
        b < 10,
        digit_char(a) == digit_char(b),
    ensures
        a == b,
{
}

proof fn lemma_decimal_len(n: nat)
    ensures
        decimal(n).len() >= 1,
        n >= 10 ==> decimal(n).len() >= 2,
    decreases n,
{
    if n >= 10 {
        lemma_decimal_len(n / 10);
    }
}

/// Two numbers with the same decimal text are equal.
pub proof fn lemma_decimal_injective(a: nat, b: nat)
    requires
        decimal(a) == decimal(b),
    ensures
        a == b,
    decreases a,
{
    lemma_decimal_len(a);
    lemma_decimal_len(b);
    if a < 10 && b < 10 {
        assert(decimal(a)[0] == digit_char(a));
        assert(decimal(b)[0] == digit_char(b));
        lemma_digit_char_injective(a, b);
    } else if a >= 10 && b >= 10 {
        let da = decimal(a / 10);
        let db = decimal(b / 10);
        assert(decimal(a).last() == digit_char(a % 10));
        assert(decimal(b).last() == digit_char(b % 10));
        lemma_digit_char_injective(a % 10, b % 10);
        assert(da =~= decimal(a).drop_last());
        assert(db =~= decimal(b).drop_last());
        lemma_decimal_injective(a / 10, b / 10);
    } else {
        assert(decimal(a).len() != decimal(b).len());
    }
}

/// Relies on `u64`'s `ToString` (through `Display`): the base-ten digits of the value.
#[verifier::external_body]
fn decimal_string(n: u64) -> (r: String)
    ensures
        r@ == decimal(n as nat),
{
    n.to_string()
}

/// An identifier of a menu or menu item, compared by its text.
#[derive(Debug, Eq, Hash)]
pub struct MenuId(pub String);

impl MenuId {
    /// The text of the identifier.
    pub open spec fn view(&self) -> Seq<char> {
        self.0@
    }

    /// Creates an identifier with the given text.
    pub fn new(id: &str) -> (r: MenuId)
        ensures
            r@ == id@,
    {
        MenuId(id.to_owned())
    }

    /// Creates an identifier that holds the given text.
    pub fn from_string(id: String) -> (r: MenuId)
        ensures
            r@ == id@,
    {
        MenuId(id)
    }

    /// The identifier generated for serial number `n`.
    pub open spec fn generated(n: u64) -> Seq<char> {
        decimal(n as nat)
    }

    /// Creates the identifier generated for serial number `n`.
    pub fn from_serial(n: u64) -> (r: MenuId)
        ensures
            r@ == MenuId::generated(n),
    {
        MenuId(decimal_string(n))
    }

    /// The text of the identifier.
    pub fn as_str(&self) -> (r: &str)
        ensures
            r@ == self@,
    {
        self.0.as_str()
    }
}

/// Identifiers generated for two different serial numbers differ.
pub proof fn lemma_generated_ids_distinct(a: u64, b: u64)
    requires
        a != b,
    ensures
        MenuId::generated(a) != MenuId::generated(b),
{
    if decimal(a as nat) == decimal(b as nat) {
        lemma_decimal_injective(a as nat, b as nat);
    }
}

/// Identifiers generated in sequence are pairwise distinct: where the serial numbers used
/// strictly increase (as each generation advances the store's serial number), no two of
/// the identifiers are equal.
pub proof fn lemma_generated_sequence_distinct(serials: Seq<u64>)
    requires
        forall|i: int, j: int| 0 <= i < j < serials.len() ==> serials[i] < serials[j],
    ensures
        forall|i: int, j: int|
            0 <= i < serials.len() && 0 <= j < serials.len() && i != j ==> MenuId::generated(
                #[trigger] serials[i],
            ) != MenuId::generated(#[trigger] serials[j]),
{
    assert forall|i: int, j: int|
        0 <= i < serials.len() && 0 <= j < serials.len() && i != j implies MenuId::generated(
            #[trigger] serials[i],
        ) != MenuId::generated(#[trigger] serials[j]) by {
        if i < j {
            assert(serials[i] < serials[j]);
        } else {
            assert(serials[j] < serials[i]);
        }
        lemma_generated_ids_distinct(serials[i], serials[j]);
    }
}

impl Clone for MenuId {
    fn clone(&self) -> (r: Self)
        ensures
            r == *self,
    {
        MenuId(self.0.clone())
    }
}

impl PartialEq for MenuId {
    fn eq(&self, other: &MenuId) -> (r: bool) {
        self.0 == other.0
    }
}

impl vstd::std_specs::cmp::PartialEqSpecImpl for MenuId {
    open spec fn obeys_eq_spec() -> bool {
        true
    }

    open spec fn eq_spec(&self, other: &MenuId) -> bool {
        self@ == other@
    }
}

} // verus!
