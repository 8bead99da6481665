use vstd::prelude::*;

verus! {

/// Identifier of a remote device, scoped to the remote identity.
pub type DeviceId = u32;

/// Lower-case hexadecimal digit for a value below sixteen.
pub open spec fn digit_char(d: nat) -> char {
    seq!['0', '1', '2', '3', '4', '5', '6', '7', '8', '9', 'a', 'b', 'c', 'd', 'e', 'f'][d as int]
}

/// Lower-case hexadecimal rendering of `n`, without leading zeros.
pub open spec fn hex_of(n: nat) -> Seq<char>
    decreases n,
{
    if n < 16 {
        seq![digit_char(n)]
    } else {
        hex_of(n / 16).push(digit_char(n % 16))
    }
}

/// Decimal rendering of `n`, without leading zeros.
pub open spec fn dec_of(n: nat) -> Seq<char>
    decreases n,
{
    if n < 10 {
        seq![digit_char(n)]
    } else {
        dec_of(n / 10).push(digit_char(n % 10))
    }
}

/// Value of a digit character in base sixteen (lower case).
pub open spec fn digit_value(c: char) -> nat {
    choose|d: nat| d < 16 && digit_char(d) == c
}

/// Value of a sequence of digits read in `base`, most significant first.
pub open spec fn digits_value(s: Seq<char>, base: nat) -> nat
    decreases s.len(),
{
    if s.len() == 0 {
        0
    } else {
        digits_value(s.drop_last(), base) * base + digit_value(s.last())
    }
}

/// Unique call identification number.
#[derive(Clone, Copy, Debug, PartialEq, Eq, Hash, Structural)]
pub struct CallId {
    id: u64,
}

impl View for CallId {
    type V = u64;

    closed spec fn view(&self) -> u64 {
        self.id
    }
}

/// What a call id is rendered as: `0x` and its hex digits.
pub open spec fn call_id_text(id: CallId) -> Seq<char> {
    seq!['0', 'x'] + hex_of(id@ as nat)
}

/// What a call id paired with a device id is rendered as.
pub open spec fn call_device_text(id: CallId, device_id: DeviceId) -> Seq<char> {
    seq!['0', 'x'] + hex_of(id@ as nat) + seq!['-'] + dec_of(device_id as nat)
}

/// Paired with a device, an identifier renders as its own text, a dash and
/// the device number in decimal.
pub proof fn device_text_extends_id_text(id: CallId, device_id: DeviceId)
    ensures
        call_device_text(id, device_id) == call_id_text(id) + seq!['-'] + dec_of(device_id as nat),
{
    assert(call_device_text(id, device_id) =~= call_id_text(id) + seq!['-'] + dec_of(device_id as nat));
}

proof fn lemma_digit_value(d: nat)
    requires
        d < 16,
    ensures
        digit_value(digit_char(d)) == d,
{
    let s = seq!['0', '1', '2', '3', '4', '5', '6', '7', '8', '9', 'a', 'b', 'c', 'd', 'e', 'f'];
    assert(digit_char(d) == s[d as int]);
    let e = digit_value(digit_char(d));
    assert(e < 16 && digit_char(e) == digit_char(d));
    assert(s[e as int] == s[d as int]);
}

/// Reading the hex digits of `n` back gives `n`.
pub proof fn hex_digits_read_back(n: nat)
    ensures
        digits_value(hex_of(n), 16) == n,
    decreases n,
{
    if n < 16 {
        lemma_digit_value(n);
        let h = hex_of(n);
        assert(h.drop_last() =~= Seq::<char>::empty());
        assert(digits_value(h.drop_last(), 16) == 0);
        assert(h.last() == digit_char(n));
    } else {
        hex_digits_read_back(n / 16);
        lemma_digit_value(n % 16);
        let h = hex_of(n);
        assert(h == hex_of(n / 16).push(digit_char(n % 16)));
        assert(h.drop_last() =~= hex_of(n / 16));
        assert(h.last() == digit_char(n % 16));
        assert((n / 16) * 16 + n % 16 == n) by (nonlinear_arith);
    }
}

proof fn lemma_digit_not_dash(d: nat)
    requires
        d < 16,
    ensures
        digit_char(d) != '-',
{
    let s = seq!['0', '1', '2', '3', '4', '5', '6', '7', '8', '9', 'a', 'b', 'c', 'd', 'e', 'f'];
    assert(digit_char(d) == s[d as int]);
}

spec fn digits_in(n: nat, base: nat) -> Seq<char> {
    if base == 16 {
        hex_of(n)
    } else {
        dec_of(n)
    }
}

proof fn lemma_digits_no_dash(n: nat, base: nat)
    requires
        base == 10 || base == 16,
    ensures
        forall|i: int| 0 <= i < digits_in(n, base).len() ==> #[trigger] digits_in(n, base)[i] != '-',
    decreases n,
{
    lemma_digit_not_dash(n % base);
    if base == 16 && n >= 16 {
        assert(hex_of(n) == hex_of(n / 16).push(digit_char(n % 16)));
    }
    if base == 10 && n >= 10 {
        assert(dec_of(n) == dec_of(n / 10).push(digit_char(n % 10)));
    }
    if n >= base {
        lemma_digits_no_dash(n / base, base);
        let p = digits_in(n / base, base);
        assert(digits_in(n, base) == p.push(digit_char(n % base)));
        assert forall|i: int| 0 <= i < digits_in(n, base).len() implies #[trigger] digits_in(
            n,
            base,
        )[i] != '-' by {
            if i < p.len() {
                assert(digits_in(n, base)[i] == p[i]);
            }
        }
    } else {
        lemma_digit_not_dash(n);
        assert(digits_in(n, base) == seq![digit_char(n)]);
    }
}

/// Reading the decimal digits of `n` back gives `n`.
pub proof fn dec_digits_read_back(n: nat)
    ensures
        digits_value(dec_of(n), 10) == n,
    decreases n,
{
    if n < 10 {
        lemma_digit_value(n);
        let h = dec_of(n);
        assert(h.drop_last() =~= Seq::<char>::empty());
        assert(digits_value(h.drop_last(), 10) == 0);
        assert(h.last() == digit_char(n));
    } else {
        dec_digits_read_back(n / 10);
        lemma_digit_value(n % 10);
        let h = dec_of(n);
        assert(h == dec_of(n / 10).push(digit_char(n % 10)));
        assert(h.drop_last() =~= dec_of(n / 10));
        assert(h.last() == digit_char(n % 10));
        assert((n / 10) * 10 + n % 10 == n) by (nonlinear_arith);
    }
}

/// The text of an identifier paired with a device determines both: two such
/// texts are equal exactly when the identifiers and the devices are.
pub proof fn device_text_determines_both(a: CallId, d1: DeviceId, b: CallId, d2: DeviceId)
    ensures
        (call_device_text(a, d1) == call_device_text(b, d2)) == (a == b && d1 == d2),
{
    if call_device_text(a, d1) == call_device_text(b, d2) {
        let h1 = hex_of(a@ as nat);
        let h2 = hex_of(b@ as nat);
        let t1 = call_device_text(a, d1);
        let t2 = call_device_text(b, d2);
        let n1: int = h1.len() as int;
        let n2: int = h2.len() as int;
        lemma_digits_no_dash(a@ as nat, 16);
        lemma_digits_no_dash(b@ as nat, 16);
        assert(digits_in(a@ as nat, 16) == h1);
        assert(digits_in(b@ as nat, 16) == h2);
        assert(t1[2 + n1] == '-');
        assert(t2[2 + n2] == '-');
        if h1.len() < h2.len() {
            assert(t2[2 + n1] == h2[n1]);
        }
        if h2.len() < h1.len() {
            assert(t1[2 + n2] == h1[n2]);
        }
        assert(h1.len() == h2.len());
        assert(h1 =~= t1.subrange(2, 2 + n1));
        assert(h2 =~= t2.subrange(2, 2 + n2));
        let e1 = dec_of(d1 as nat);
        let e2 = dec_of(d2 as nat);
        assert(e1 =~= t1.subrange(3 + n1, t1.len() as int));
        assert(e2 =~= t2.subrange(3 + n2, t2.len() as int));
        hex_digits_read_back(a@ as nat);
        hex_digits_read_back(b@ as nat);
        dec_digits_read_back(d1 as nat);
        dec_digits_read_back(d2 as nat);
        assert(a.id == b.id);
    }
}

/// Two identifiers are equal exactly when their values are.
pub proof fn call_id_view_injective(a: CallId, b: CallId)
    ensures
        (a@ == b@) == (a == b),
{
}

/// Relies on rand::random: a uniformly drawn `u64`; nothing is known of its value.
#[verifier::external_body]
fn draw_u64() -> (r: u64) {
    rand::random::<u64>()
}

/// One-character string for a digit below sixteen.
fn digit_str(d: u64) -> (r: &'static str)
    requires
        d < 16,
    ensures
        r@ == seq![digit_char(d as nat)],
{
    let r = match d {
        0 => "0",
        1 => "1",
        2 => "2",
        3 => "3",
        4 => "4",
        5 => "5",
        6 => "6",
        7 => "7",
        8 => "8",
        9 => "9",
        10 => "a",
        11 => "b",
        12 => "c",
        13 => "d",
        14 => "e",
        _ => "f",
    };
    proof {
        reveal_strlit("0");
        reveal_strlit("1");
        reveal_strlit("2");
        reveal_strlit("3");
        reveal_strlit("4");
        reveal_strlit("5");
        reveal_strlit("6");
        reveal_strlit("7");
        reveal_strlit("8");
        reveal_strlit("9");
        reveal_strlit("a");
        reveal_strlit("b");
        reveal_strlit("c");
        reveal_strlit("d");
        reveal_strlit("e");
        reveal_strlit("f");
        assert(r@ =~= seq![digit_char(d as nat)]);
    }
    r
}

/// Appends the digits of `n` in `base` (ten or sixteen) to `s`.
fn append_digits(s: &mut String, n: u64, base: u64)
    requires
        base == 10 || base == 16,
    ensures
        final(s)@ == old(s)@ + (if base == 16 { hex_of(n as nat) } else { dec_of(n as nat) }),
    decreases n,
{
    if n >= base {
        append_digits(s, n / base, base);
    }
    let d = digit_str(n % base);
    s.append(d);
    proof {
        reveal_with_fuel(hex_of, 1);
        reveal_with_fuel(dec_of, 1);
        if base == 16 {
            if n >= 16 {
                assert(hex_of(n as nat) == hex_of((n / 16) as nat).push(digit_char((n % 16) as nat)));
            }
        } else {
            if n >= 10 {
                assert(dec_of(n as nat) == dec_of((n / 10) as nat).push(digit_char((n % 10) as nat)));
            }
        }
        assert(final(s)@ =~= old(s)@ + (if base == 16 { hex_of(n as nat) } else { dec_of(n as nat) }));
    }
}

impl CallId {
    pub fn new(id: u64) -> (r: Self)
        ensures
            r@ == id,
    {
        CallId { id }
    }

    /// A freshly drawn identifier; uniqueness is likely, not guaranteed.
    pub fn random() -> (r: Self) {
        Self::new(draw_u64())
    }

    pub fn as_u64(self) -> (r: u64)
        ensures
            r == self@,
    {
        self.id
    }

    /// The text of the identifier: `0x` followed by its lower-case hex digits.
    pub fn to_string(self) -> (r: String)
        ensures
            r@ == call_id_text(self),
    {
        proof {
            assert(self@ == self.id);
        }
        let mut s = String::from_str("0x");
        proof {
            reveal_strlit("0x");
        }
        append_digits(&mut s, self.id, 16);
        proof {
            assert(s@ =~= call_id_text(self));
        }
        s
    }

    /// The identifier paired with a device, for log correlation: `0x<hex>-<device>`.
    pub fn format(self, device_id: DeviceId) -> (r: String)
        ensures
            r@ == call_device_text(self, device_id),
    {
        let mut s = self.to_string();
        s.append("-");
        proof {
            reveal_strlit("-");
        }
        append_digits(&mut s, device_id as u64, 10);
        proof {
            assert(s@ =~= call_device_text(self, device_id));
        }
        s
    }
}

impl From<CallId> for u64 {
    fn from(item: CallId) -> (r: u64) {
        item.id
    }
}

impl vstd::std_specs::convert::FromSpecImpl<CallId> for u64 {
    open spec fn obeys_from_spec() -> bool {
        true
    }

    open spec fn from_spec(item: CallId) -> u64 {
        item@
    }
}

impl From<u64> for CallId {
    fn from(item: u64) -> (r: CallId) {
        let r = CallId::new(item);
        proof {
            let c = choose|c: CallId| c@ == item;
            assert(c@ == item);
            assert(c.id == r.id);
        }
        r
    }
}

impl vstd::std_specs::convert::FromSpecImpl<u64> for CallId {
    open spec fn obeys_from_spec() -> bool {
        true
    }

    open spec fn from_spec(item: u64) -> CallId {
        choose|c: CallId| c@ == item
    }
}

impl From<i64> for CallId {
    fn from(item: i64) -> (r: CallId) {
        let r = CallId::new(item as u64);
        proof {
            let c = choose|c: CallId| c@ == item as u64;
            assert(c@ == item as u64);
            assert(c.id == r.id);
        }
        r
    }
}

impl vstd::std_specs::convert::FromSpecImpl<i64> for CallId {
    open spec fn obeys_from_spec() -> bool {
        true
    }

    open spec fn from_spec(item: i64) -> CallId {
        choose|c: CallId| c@ == item as u64
    }
}

} // verus!
