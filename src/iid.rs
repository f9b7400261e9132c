//! Interface identifiers: four fields forming a 128-bit value, compared
//! field by field and rendered in the registry form
//! `{XXXXXXXX-XXXX-XXXX-XXXX-XXXXXXXXXXXX}`.
use vstd::prelude::*;
use vstd::std_specs::cmp::PartialEqSpec;

verus! {

/// Interface identifier.
#[derive(Clone, Copy, Debug)]
pub struct IID {
    /// First component, 32-bit value.
    pub data1: u32,
    /// Second component, 16-bit value.
    pub data2: u16,
    /// Third component, 16-bit value.
    pub data3: u16,
    /// Fourth component, array of 8-bit values.
    pub data4: [u8; 8],
}

/// The uppercase hexadecimal digit of a value below sixteen.
pub open spec fn hex_char(d: nat) -> char {
    if d < 10 {
        (('0' as nat) + d) as char
    } else {
        (('A' as nat) + (d - 10)) as char
    }
}

/// The last `width` hexadecimal digits of `v`, most significant first,
/// padded with zeros.
pub open spec fn hex_digits(v: nat, width: nat) -> Seq<char>
    decreases width,
{
    if width == 0 {
        Seq::empty()
    } else {
        hex_digits(v / 16, (width - 1) as nat).push(hex_char(v % 16))
    }
}

/// The canonical text of an identifier:
/// `{XXXXXXXX-XXXX-XXXX-XXXX-XXXXXXXXXXXX}`, uppercase and zero-padded.
pub open spec fn iid_text(id: IID) -> Seq<char> {
    seq!['{'] + hex_digits(id.data1 as nat, 8) + seq!['-'] + hex_digits(id.data2 as nat, 4)
        + seq!['-'] + hex_digits(id.data3 as nat, 4) + seq!['-']
        + hex_digits(id.data4[0] as nat, 2) + hex_digits(id.data4[1] as nat, 2) + seq!['-']
        + hex_digits(id.data4[2] as nat, 2) + hex_digits(id.data4[3] as nat, 2)
        + hex_digits(id.data4[4] as nat, 2) + hex_digits(id.data4[5] as nat, 2)
        + hex_digits(id.data4[6] as nat, 2) + hex_digits(id.data4[7] as nat, 2) + seq!['}']
}

/// Two identifiers are equal when all four fields are.
pub open spec fn iid_eq(a: IID, b: IID) -> bool {
    &&& a.data1 == b.data1
    &&& a.data2 == b.data2
    &&& a.data3 == b.data3
    &&& a.data4@ == b.data4@
}

/// The four bytes of a 32-bit value, least significant first.
pub open spec fn le_bytes32(x: u32) -> Seq<u8> {
    seq![x as u8, (x >> 8u32) as u8, (x >> 16u32) as u8, (x >> 24u32) as u8]
}

/// The two bytes of a 16-bit value, least significant first.
pub open spec fn le_bytes16(x: u16) -> Seq<u8> {
    seq![x as u8, (x >> 8u16) as u8]
}

/// The wire form of an identifier: sixteen bytes with no padding, the
/// 32-bit value, then the two 16-bit values, each least significant byte
/// first, then the eight bytes as they stand.
pub open spec fn iid_bytes(id: IID) -> Seq<u8> {
    le_bytes32(id.data1) + le_bytes16(id.data2) + le_bytes16(id.data3) + id.data4@
}

/// The identifier whose wire form is `b`.
pub open spec fn iid_of_bytes(b: Seq<u8>) -> IID
    recommends
        b.len() == 16,
{
    IID {
        data1: (b[0] as u32) | ((b[1] as u32) << 8u32) | ((b[2] as u32) << 16u32) | ((b[3]
            as u32) << 24u32),
        data2: (b[4] as u16) | ((b[5] as u16) << 8u16),
        data3: (b[6] as u16) | ((b[7] as u16) << 8u16),
        data4: [b[8], b[9], b[10], b[11], b[12], b[13], b[14], b[15]],
    }
}

/// Identifier equality compares the four fields.
impl PartialEq for IID {
    fn eq(&self, other: &IID) -> (r: bool) {
        let r = self.data1 == other.data1 && self.data2 == other.data2 && self.data3
            == other.data3 && self.data4[0] == other.data4[0] && self.data4[1] == other.data4[1]
            && self.data4[2] == other.data4[2] && self.data4[3] == other.data4[3]
            && self.data4[4] == other.data4[4] && self.data4[5] == other.data4[5]
            && self.data4[6] == other.data4[6] && self.data4[7] == other.data4[7];
        assert(r ==> self.data4@ =~= other.data4@);
        r
    }
}

impl vstd::std_specs::cmp::PartialEqSpecImpl for IID {
    open spec fn obeys_eq_spec() -> bool {
        true
    }

    open spec fn eq_spec(&self, other: &IID) -> bool {
        iid_eq(*self, *other)
    }
}

impl Eq for IID {
}

/// The one-character string holding the hexadecimal digit of `d`.
fn hex_str(d: u64) -> (r: &'static str)
    requires
        d < 16,
    ensures
        r@ == seq![hex_char(d as nat)],
{
    match d {
        0 => { proof { reveal_strlit("0"); } "0" },
        1 => { proof { reveal_strlit("1"); } "1" },
        2 => { proof { reveal_strlit("2"); } "2" },
        3 => { proof { reveal_strlit("3"); } "3" },
        4 => { proof { reveal_strlit("4"); } "4" },
        5 => { proof { reveal_strlit("5"); } "5" },
        6 => { proof { reveal_strlit("6"); } "6" },
        7 => { proof { reveal_strlit("7"); } "7" },
        8 => { proof { reveal_strlit("8"); } "8" },
        9 => { proof { reveal_strlit("9"); } "9" },
        10 => { proof { reveal_strlit("A"); } "A" },
        11 => { proof { reveal_strlit("B"); } "B" },
        12 => { proof { reveal_strlit("C"); } "C" },
        13 => { proof { reveal_strlit("D"); } "D" },
        14 => { proof { reveal_strlit("E"); } "E" },
        _ => { proof { reveal_strlit("F"); } "F" },
    }
}

/// Appends the last `width` hexadecimal digits of `v` to `s`.
fn push_hex(s: &mut String, v: u64, width: u64)
    ensures
        final(s)@ == old(s)@ + hex_digits(v as nat, width as nat),
    decreases width,
{
    if width > 0 {
        push_hex(s, v / 16, width - 1);
        s.append(hex_str(v % 16));
    }
}

/// Appends a one-character literal to `s`.
fn push_sep(s: &mut String, c: &str)
    ensures
        final(s)@ == old(s)@ + c@,
{
    s.append(c);
}

impl IID {
    /// Builds an identifier from its four fields.
    pub fn new(data1: u32, data2: u16, data3: u16, data4: [u8; 8]) -> (r: IID)
        ensures
            r.data1 == data1,
            r.data2 == data2,
            r.data3 == data3,
            r.data4 == data4,
    {
        IID { data1, data2, data3, data4 }
    }

    /// The sixteen bytes of the identifier's wire form.
    pub fn to_bytes(&self) -> (r: Vec<u8>)
        ensures
            r@ == iid_bytes(*self),
    {
        let d1 = self.data1;
        let d2 = self.data2;
        let d3 = self.data3;
        let r = vec![
            d1 as u8, (d1 >> 8u32) as u8, (d1 >> 16u32) as u8, (d1 >> 24u32) as u8,
            d2 as u8, (d2 >> 8u16) as u8,
            d3 as u8, (d3 >> 8u16) as u8,
            self.data4[0], self.data4[1], self.data4[2], self.data4[3],
            self.data4[4], self.data4[5], self.data4[6], self.data4[7],
        ];
        assert(r@ =~= iid_bytes(*self));
        r
    }

    /// Reads an identifier from its wire form; `None` unless `b` holds
    /// exactly sixteen bytes.
    pub fn from_bytes(b: &[u8]) -> (r: Option<IID>)
        ensures
            b@.len() == 16 <==> r.is_some(),
            r.is_some() ==> r == Some(iid_of_bytes(b@)),
    {
        if b.len() != 16 {
            return None;
        }
        let data1 = (b[0] as u32) | ((b[1] as u32) << 8u32) | ((b[2] as u32) << 16u32) | ((b[3]
            as u32) << 24u32);
        let data2 = (b[4] as u16) | ((b[5] as u16) << 8u16);
        let data3 = (b[6] as u16) | ((b[7] as u16) << 8u16);
        let data4 = [b[8], b[9], b[10], b[11], b[12], b[13], b[14], b[15]];
        Some(IID { data1, data2, data3, data4 })
    }

    /// Renders the identifier in registry form,
    /// `{XXXXXXXX-XXXX-XXXX-XXXX-XXXXXXXXXXXX}`.
    pub fn to_string(&self) -> (r: String)
        ensures
            r@ == iid_text(*self),
    {
        proof {
            reveal_strlit("{");
            reveal_strlit("-");
            reveal_strlit("}");
        }
        let mut s = String::new();
        push_sep(&mut s, "{");
        push_hex(&mut s, self.data1 as u64, 8);
        push_sep(&mut s, "-");
        push_hex(&mut s, self.data2 as u64, 4);
        push_sep(&mut s, "-");
        push_hex(&mut s, self.data3 as u64, 4);
        push_sep(&mut s, "-");
        push_hex(&mut s, self.data4[0] as u64, 2);
        push_hex(&mut s, self.data4[1] as u64, 2);
        push_sep(&mut s, "-");
        push_hex(&mut s, self.data4[2] as u64, 2);
        push_hex(&mut s, self.data4[3] as u64, 2);
        push_hex(&mut s, self.data4[4] as u64, 2);
        push_hex(&mut s, self.data4[5] as u64, 2);
        push_hex(&mut s, self.data4[6] as u64, 2);
        push_hex(&mut s, self.data4[7] as u64, 2);
        push_sep(&mut s, "}");
        assert(s@ =~= iid_text(*self));
        s
    }
}

} // verus!

verus! {

proof fn lemma_le_bytes32_injective(x: u32, y: u32)
    ensures
        le_bytes32(x) == le_bytes32(y) ==> x == y,
{
    if le_bytes32(x) == le_bytes32(y) {
        assert(le_bytes32(x)[0] == le_bytes32(y)[0]);
        assert(le_bytes32(x)[1] == le_bytes32(y)[1]);
        assert(le_bytes32(x)[2] == le_bytes32(y)[2]);
        assert(le_bytes32(x)[3] == le_bytes32(y)[3]);
        assert((x as u8 == y as u8 && (x >> 8u32) as u8 == (y >> 8u32) as u8 && (x >> 16u32) as u8
            == (y >> 16u32) as u8 && (x >> 24u32) as u8 == (y >> 24u32) as u8) ==> x == y)
            by (bit_vector);
    }
}

proof fn lemma_le_bytes16_injective(x: u16, y: u16)
    ensures
        le_bytes16(x) == le_bytes16(y) ==> x == y,
{
    if le_bytes16(x) == le_bytes16(y) {
        assert(le_bytes16(x)[0] == le_bytes16(y)[0]);
        assert(le_bytes16(x)[1] == le_bytes16(y)[1]);
        assert((x as u8 == y as u8 && (x >> 8u16) as u8 == (y >> 8u16) as u8) ==> x == y)
            by (bit_vector);
    }
}

/// Identifier equality is an equivalence, and two identifiers are equal
/// exactly when their sixteen-byte wire forms are.
pub proof fn lemma_iid_eq_is_bytewise(a: IID, b: IID, c: IID)
    ensures
        a.eq_spec(&a),
        a.eq_spec(&b) == b.eq_spec(&a),
        a.eq_spec(&b) && b.eq_spec(&c) ==> a.eq_spec(&c),
        a.eq_spec(&b) <==> iid_bytes(a) == iid_bytes(b),
{
    let ba = iid_bytes(a);
    let bb = iid_bytes(b);
    if ba == bb {
        assert(ba.subrange(0, 4) == le_bytes32(a.data1));
        assert(bb.subrange(0, 4) == le_bytes32(b.data1));
        assert(ba.subrange(4, 6) == le_bytes16(a.data2));
        assert(bb.subrange(4, 6) == le_bytes16(b.data2));
        assert(ba.subrange(6, 8) == le_bytes16(a.data3));
        assert(bb.subrange(6, 8) == le_bytes16(b.data3));
        assert(ba.subrange(8, 16) == a.data4@);
        assert(bb.subrange(8, 16) == b.data4@);
        lemma_le_bytes32_injective(a.data1, b.data1);
        lemma_le_bytes16_injective(a.data2, b.data2);
        lemma_le_bytes16_injective(a.data3, b.data3);
    }
}

/// Reading back the wire form of an identifier gives an identifier equal
/// to it.
pub proof fn lemma_bytes_round_trip(id: IID)
    ensures
        iid_bytes(id).len() == 16,
        iid_eq(iid_of_bytes(iid_bytes(id)), id),
{
    let b = iid_bytes(id);
    let r = iid_of_bytes(b);
    let x = id.data1;
    let y = id.data2;
    let z = id.data3;
    assert(((x as u8) as u32) | ((((x >> 8u32) as u8) as u32) << 8u32) | ((((x >> 16u32) as u8)
        as u32) << 16u32) | ((((x >> 24u32) as u8) as u32) << 24u32) == x) by (bit_vector);
    assert(((y as u8) as u16) | ((((y >> 8u16) as u8) as u16) << 8u16) == y) by (bit_vector);
    assert(((z as u8) as u16) | ((((z >> 8u16) as u8) as u16) << 8u16) == z) by (bit_vector);
    assert(r.data4@ =~= id.data4@);
}

} // verus!
