//! Message components (buttons and select menus) and the data that a press
//! of one of them stands for. A component's custom id is the text of a UUID
//! under which that data is stored.
use vstd::prelude::*;

use crate::mechanics::MechanicFunction;
use crate::tasks::TaskType;

verus! {

/// The character of a hexadecimal digit, in lower case.
pub open spec fn hex_char(d: nat) -> char {
    if d < 10 {
        (48 + d) as char
    } else {
        (87 + d) as char
    }
}

/// The `n` lowest hexadecimal digits of `v`, most significant first.
pub open spec fn hex_digits(v: nat, n: nat) -> Seq<char>
    decreases n,
{
    if n == 0 {
        Seq::empty()
    } else {
        hex_digits(v / 16, (n - 1) as nat).push(hex_char(v % 16))
    }
}

/// The hyphenated text of a UUID: its 32 hexadecimal digits in lower case,
/// in groups of 8, 4, 4, 4 and 12 joined by `-`.
pub open spec fn uuid_text(id: u128) -> Seq<char> {
    let h = hex_digits(id as nat, 32);
    h.subrange(0, 8) + seq!['-'] + h.subrange(8, 12) + seq!['-'] + h.subrange(12, 16) + seq!['-']
        + h.subrange(16, 20) + seq!['-'] + h.subrange(20, 32)
}

/// A hexadecimal digit character tells its digit.
proof fn lemma_hex_char_injective(a: nat, b: nat)
    requires
        a < 16,
        b < 16,
        hex_char(a) == hex_char(b),
    ensures
        a == b,
{
}

/// The `n` lowest hexadecimal digits of a number tell the number modulo
/// `16^n`.
proof fn lemma_hex_digits_injective(a: nat, b: nat, n: nat)
    requires
        hex_digits(a, n) == hex_digits(b, n),
    ensures
        (a as int) % vstd::arithmetic::power::pow(16, n) == (b as int) % vstd::arithmetic::power::pow(16, n),
    decreases n,
{
    vstd::arithmetic::power::lemma_pow_positive(16, n);
    if n == 0 {
        vstd::arithmetic::power::lemma_pow0(16);
    } else {
        let m = (n - 1) as nat;
        let da = hex_digits(a, n);
        let db = hex_digits(b, n);
        assert(da.drop_last() == hex_digits(a / 16, m));
        assert(db.drop_last() == hex_digits(b / 16, m));
        assert(da.last() == hex_char(a % 16));
        assert(db.last() == hex_char(b % 16));
        lemma_hex_digits_injective(a / 16, b / 16, m);
        lemma_hex_char_injective(a % 16, b % 16);
        vstd::arithmetic::power::lemma_pow_positive(16, m);
        let p = vstd::arithmetic::power::pow(16, m);
        vstd::arithmetic::power::lemma_pow_adds(16, 1, m);
        vstd::arithmetic::power::lemma_pow1(16);
        assert(vstd::arithmetic::power::pow(16, n) == 16 * p);
        lemma_mod_split(a as int, p);
        lemma_mod_split(b as int, p);
    }
}

/// Splitting off the lowest hexadecimal digit: `a mod 16p` is `a mod 16` plus
/// sixteen times `(a / 16) mod p`.
proof fn lemma_mod_split(a: int, p: int)
    requires
        a >= 0,
        p > 0,
    ensures
        a % (16 * p) == a % 16 + 16 * ((a / 16) % p),
{
    vstd::arithmetic::div_mod::lemma_mod_breakdown(a, 16, p);
}

/// Different UUIDs have different texts: the custom id of a component tells
/// which stored data it stands for.
pub proof fn lemma_uuid_text_injective(a: u128, b: u128)
    requires
        uuid_text(a) == uuid_text(b),
    ensures
        a == b,
{
    let ha = hex_digits(a as nat, 32);
    let hb = hex_digits(b as nat, 32);
    lemma_hex_digits_len(a as nat, 32);
    lemma_hex_digits_len(b as nat, 32);
    assert(ha =~= hb) by {
        let ta = uuid_text(a);
        let tb = uuid_text(b);
        assert forall|i: int| 0 <= i < 32 implies ha[i] == hb[i] by {
            if i < 8 {
                assert(ta[i] == ha[i]);
                assert(tb[i] == hb[i]);
            } else if i < 12 {
                assert(ta[i + 1] == ha[i]);
                assert(tb[i + 1] == hb[i]);
            } else if i < 16 {
                assert(ta[i + 2] == ha[i]);
                assert(tb[i + 2] == hb[i]);
            } else if i < 20 {
                assert(ta[i + 3] == ha[i]);
                assert(tb[i + 3] == hb[i]);
            } else {
                assert(ta[i + 4] == ha[i]);
                assert(tb[i + 4] == hb[i]);
            }
        }
    }
    lemma_hex_digits_injective(a as nat, b as nat, 32);
    assert(vstd::arithmetic::power::pow(16, 32) > u128::MAX) by {
        reveal_with_fuel(vstd::arithmetic::power::pow, 33);
    }
    vstd::arithmetic::div_mod::lemma_small_mod(a as nat, vstd::arithmetic::power::pow(16, 32) as nat);
    vstd::arithmetic::div_mod::lemma_small_mod(b as nat, vstd::arithmetic::power::pow(16, 32) as nat);
    assert((a as int) % vstd::arithmetic::power::pow(16, 32) == a as int);
    assert((b as int) % vstd::arithmetic::power::pow(16, 32) == b as int);
}

/// The number of digits of `hex_digits`.
proof fn lemma_hex_digits_len(v: nat, n: nat)
    ensures
        hex_digits(v, n).len() == n,
    decreases n,
{
    if n > 0 {
        lemma_hex_digits_len(v / 16, (n - 1) as nat);
    }
}

/// Whether a UUID is of version 4 and of the RFC 4122 variant, as a random
/// one is.
pub open spec fn is_random_uuid(id: u128) -> bool {
    &&& (id >> 76u128) & 0xfu128 == 4
    &&& (id >> 62u128) & 0x3u128 == 2
}

/// `uuid::Uuid::new_v4`, as the 128-bit value of the new UUID. Its bits come
/// from the operating system's random source; the contract says only that the
/// version and variant bits are those of a random UUID, which `new_v4` sets.
#[verifier::external_body]
fn new_uuid() -> (id: u128)
    ensures
        is_random_uuid(id),
{
    uuid::Uuid::new_v4().as_u128()
}

/// `uuid::Uuid::from_u128` followed by `to_string`: the contract states that the
/// text is the hyphenated lower-case form, which is what `Uuid`'s `Display`
/// writes.
#[verifier::external_body]
fn uuid_string(id: u128) -> (s: String)
    ensures
        s@ == uuid_text(id),
{
    uuid::Uuid::from_u128(id).to_string()
}

/// `uuid::Uuid::parse_str`, as the 128-bit value of the UUID. The contract
/// states that the hyphenated lower-case text of a UUID is read back as that
/// UUID; `parse_str` also accepts other forms (upper case, without hyphens,
/// braced, URN), of which nothing is said.
#[verifier::external_body]
fn parse_uuid(s: &str) -> (r: Option<u128>)
    ensures
        forall|v: u128| s@ == #[trigger] uuid_text(v) ==> r == Some(v),
{
    match uuid::Uuid::parse_str(s) {
        Ok(u) => Some(u.as_u128()),
        Err(_) => None,
    }
}

/// Whether `r` is what reading `text` as a UUID gives: the UUID whose text
/// `text` is, where it is one.
pub open spec fn reads_uuid(text: Seq<char>, r: Option<u128>) -> bool {
    forall|v: u128| text == #[trigger] uuid_text(v) ==> r == Some(v)
}

/// Reads the custom id of a pressed component back as the UUID under which
/// its data is stored; `None` where the text is not a UUID.
pub fn parse_custom_id(custom_id: &String) -> (r: Option<u128>)
    ensures
        reads_uuid(custom_id@, r),
{
    parse_uuid(custom_id.as_str())
}

/// The data of a component comes back from its custom id: for a component
/// that `build` finished with the row `row`, reading its custom id with
/// `parse_custom_id` gives the id under which `row` stores the component's
/// data, and no other row's id.
pub proof fn lemma_custom_id_reads_back<C: SerenityComponent>(
    finished: C,
    row: ComponentData,
    read: Option<u128>,
    other: u128,
)
    requires
        finished.custom_id_of() == uuid_text(row.id),
        reads_uuid(finished.custom_id_of(), read),
    ensures
        read == Some(row.id),
        other != row.id ==> read != Some(other),
{
    assert(finished.custom_id_of() == uuid_text(row.id));
}

/// What a press of a component stands for: a task to run, or a game mechanic.
#[derive(Debug)]
pub enum MessageData {
    Task(TaskType),
    Function(MechanicFunction),
}

/// A component that carries a custom id.
pub trait SerenityComponent: Sized {
    /// The custom id of the component.
    spec fn custom_id_of(&self) -> Seq<char>;

    /// Whether two components agree on everything but their custom id.
    spec fn same_but_id(&self, other: &Self) -> bool;

    /// The component with its custom id set to the text of `id`.
    fn update_id(self, id: u128) -> (r: Self)
        ensures
            r.custom_id_of() == uuid_text(id),
            self.same_but_id(&r),
    ;
}

/// The look of a button.
#[derive(Clone, Copy, Debug, PartialEq, Eq, Structural)]
pub enum ButtonStyle {
    Primary,
    Secondary,
    Success,
    Danger,
}

/// A button of a message.
#[derive(Clone, Debug)]
pub struct ButtonSpec {
    pub custom_id: String,
    pub label: Option<String>,
    pub emoji: Option<String>,
    pub style: ButtonStyle,
    pub disabled: bool,
}

impl SerenityComponent for ButtonSpec {
    open spec fn custom_id_of(&self) -> Seq<char> {
        self.custom_id@
    }

    open spec fn same_but_id(&self, other: &Self) -> bool {
        &&& self.label == other.label
        &&& self.emoji == other.emoji
        &&& self.style == other.style
        &&& self.disabled == other.disabled
    }

    fn update_id(self, id: u128) -> (r: Self) {
        ButtonSpec { custom_id: uuid_string(id), ..self }
    }
}

/// One choice of a select menu: the text shown and the value reported.
#[derive(Clone, Debug)]
pub struct SelectOption {
    pub label: String,
    pub value: String,
}

/// A select menu of a message.
#[derive(Clone, Debug)]
pub struct SelectMenuSpec {
    pub custom_id: String,
    pub options: Vec<SelectOption>,
    pub placeholder: Option<String>,
}

impl SerenityComponent for SelectMenuSpec {
    open spec fn custom_id_of(&self) -> Seq<char> {
        self.custom_id@
    }

    open spec fn same_but_id(&self, other: &Self) -> bool {
        &&& self.options@ == other.options@
        &&& self.placeholder == other.placeholder
    }

    fn update_id(self, id: u128) -> (r: Self) {
        SelectMenuSpec { custom_id: uuid_string(id), ..self }
    }
}

/// A component together with the data that a press of it stands for.
#[derive(Debug)]
pub struct MessageComponent<C: SerenityComponent> {
    pub component: C,
    pub data: Box<Option<MessageData>>,
}

/// The row under which the data of a component is stored: the UUID that
/// becomes the component's custom id, and the data.
#[derive(Debug)]
pub struct ComponentData {
    pub id: u128,
    pub data: Option<MessageData>,
}

impl<C: SerenityComponent> MessageComponent<C> {
    pub fn new(component: C, data: Option<MessageData>) -> (r: Self)
        ensures
            r.component == component,
            *r.data == data,
    {
        MessageComponent { component, data: Box::new(data) }
    }

    pub fn get_component(&self) -> (r: &C)
        ensures
            *r == self.component,
    {
        &self.component
    }

    /// Finalizes the component: draws a new random UUID, under which its
    /// data is to be stored, and sets the component's custom id to that UUID's
    /// text. Returns the finished component and the row to store.
    pub fn build(self) -> (r: (C, ComponentData))
        ensures
            r.0.custom_id_of() == uuid_text(r.1.id),
            self.component.same_but_id(&r.0),
            is_random_uuid(r.1.id),
            r.1.data == *self.data,
    {
        let id = new_uuid();
        let data = *self.data;
        (self.component.update_id(id), ComponentData { id, data })
    }
}

} // verus!
