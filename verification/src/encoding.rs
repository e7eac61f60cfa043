//! The two encodings of a new password that a directory server accepts:
//! the Active Directory `unicodePwd` value (the password in double quotes,
//! as UTF-16 little-endian bytes) and the Samba `sambaNTPassword` value
//! (the MD4 digest of the password as UTF-16 little-endian bytes).
use vstd::prelude::*;
use md4::Digest;

verus! {

/// The UTF-16 code units of one character.
pub open spec fn utf16_of_char(c: char) -> Seq<u16> {
    let v = c as u32;
    if v < 0x10000 {
        seq![v as u16]
    } else {
        let w = (v - 0x10000) as u32;
        seq![(0xD800 + w / 0x400) as u16, (0xDC00 + w % 0x400) as u16]
    }
}

/// The UTF-16 encoding of a character sequence.
pub open spec fn utf16_units(s: Seq<char>) -> Seq<u16>
    decreases s.len(),
{
    if s.len() == 0 {
        seq![]
    } else {
        utf16_units(s.drop_last()) + utf16_of_char(s.last())
    }
}

/// Each code unit as two bytes, low byte first.
pub open spec fn le_bytes(units: Seq<u16>) -> Seq<u8>
    decreases units.len(),
{
    if units.len() == 0 {
        seq![]
    } else {
        let u = units.last();
        le_bytes(units.drop_last()) + seq![(u % 256) as u8, (u / 256) as u8]
    }
}

/// The UTF-16LE bytes of a character sequence.
pub open spec fn utf16le(s: Seq<char>) -> Seq<u8> {
    le_bytes(utf16_units(s))
}

/// The `unicodePwd` value for `password`: `"password"` in UTF-16LE.
pub open spec fn unicode_pwd_bytes(password: Seq<char>) -> Seq<u8> {
    utf16le(seq!['"'] + password + seq!['"'])
}

/// The MD4 digest of `data`, as the `md4` crate computes it.
pub uninterp spec fn md4_digest(data: Seq<u8>) -> Seq<u8>;

/// The `sambaNTPassword` value for `password`: MD4 of its UTF-16LE bytes.
pub open spec fn nt_password_bytes(password: Seq<char>) -> Seq<u8> {
    md4_digest(utf16le(password))
}

/// `md4::Md4::digest`: the 16-byte MD4 digest of `data`. The digest is named
/// `md4_digest`; its length is the algorithm's fixed output size.
#[verifier::external_body]
fn md4(data: &[u8]) -> (res: Vec<u8>)
    ensures
        res@ == md4_digest(data@),
        res@.len() == 16,
{
    md4::Md4::digest(data).to_vec()
}

/// The UTF-16 code units of `chars`.
pub fn encode_utf16(chars: &Vec<char>) -> (res: Vec<u16>)
    ensures
        res@ == utf16_units(chars@),
{
    let mut out: Vec<u16> = Vec::new();
    let n = chars.len();
    let mut i: usize = 0;
    while i < n
        invariant
            n == chars@.len(),
            i <= n,
            out@ == utf16_units(chars@.take(i as int)),
        decreases n - i,
    {
        let c = chars[i];
        let v = c as u32;
        proof {
            assert(chars@.take(i + 1).drop_last() =~= chars@.take(i as int));
            assert(chars@.take(i + 1).last() == c);
        }
        if v < 0x10000 {
            out.push(v as u16);
            assert(out@ =~= utf16_units(chars@.take(i + 1)));
        } else {
            let w = v - 0x10000;
            out.push((0xD800 + w / 0x400) as u16);
            out.push((0xDC00 + w % 0x400) as u16);
            assert(out@ =~= utf16_units(chars@.take(i + 1)));
        }
        i = i + 1;
    }
    assert(chars@.take(n as int) =~= chars@);
    out
}

/// Each code unit of `units` as two bytes, low byte first.
pub fn to_le_bytes(units: &Vec<u16>) -> (res: Vec<u8>)
    ensures
        res@ == le_bytes(units@),
{
    let mut out: Vec<u8> = Vec::new();
    let n = units.len();
    let mut i: usize = 0;
    while i < n
        invariant
            n == units@.len(),
            i <= n,
            out@ == le_bytes(units@.take(i as int)),
        decreases n - i,
    {
        let u = units[i];
        proof {
            assert(units@.take(i + 1).drop_last() =~= units@.take(i as int));
            assert(units@.take(i + 1).last() == u);
        }
        out.push((u % 256) as u8);
        out.push((u / 256) as u8);
        assert(out@ =~= le_bytes(units@.take(i + 1)));
        i = i + 1;
    }
    assert(units@.take(n as int) =~= units@);
    out
}

/// The `unicodePwd` attribute value that sets `password` on Active Directory.
pub fn unicode_pwd_value(password: &str) -> (res: Vec<u8>)
    ensures
        res@ == unicode_pwd_bytes(password@),
{
    let mut quoted: Vec<char> = Vec::new();
    quoted.push('"');
    let mut body = crate::text::chars_of(password);
    quoted.append(&mut body);
    quoted.push('"');
    assert(quoted@ =~= seq!['"'] + password@ + seq!['"']);
    to_le_bytes(&encode_utf16(&quoted))
}

/// The `sambaNTPassword` attribute value that sets `password` on Samba.
pub fn nt_password_value(password: &str) -> (res: Vec<u8>)
    ensures
        res@ == nt_password_bytes(password@),
        res@.len() == 16,
{
    let chars = crate::text::chars_of(password);
    let bytes = to_le_bytes(&encode_utf16(&chars));
    md4(bytes.as_slice())
}


// ----------------------------------------------------------------------------
// Reading the encodings back
// ----------------------------------------------------------------------------

/// The code units that little-endian byte pairs stand for.
pub open spec fn units_from_le(b: Seq<u8>) -> Seq<u16> {
    Seq::new(b.len() / 2, |i: int| (b[2 * i] + 256 * b[2 * i + 1]) as u16)
}

/// The code points that a UTF-16 sequence stands for, read from the end: a
/// low surrogate after a high surrogate is one code point, any other unit
/// stands for itself.
pub open spec fn utf16_decode(u: Seq<u16>) -> Seq<u32>
    decreases u.len(),
{
    if u.len() == 0 {
        seq![]
    } else if u.len() >= 2 && 0xDC00 <= u.last() < 0xE000 && 0xD800 <= u[u.len() - 2] < 0xDC00 {
        utf16_decode(u.take(u.len() - 2)).push(
            ((u[u.len() - 2] - 0xD800) * 0x400 + (u.last() - 0xDC00) + 0x10000) as u32,
        )
    } else {
        utf16_decode(u.drop_last()).push(u.last() as u32)
    }
}

/// The code point of each character.
pub open spec fn code_points(s: Seq<char>) -> Seq<u32> {
    s.map_values(|c: char| c as u32)
}

/// Each unit comes back from its two bytes.
proof fn lemma_le_bytes_read_back(units: Seq<u16>)
    ensures
        le_bytes(units).len() == 2 * units.len(),
        units_from_le(le_bytes(units)) == units,
    decreases units.len(),
{
    let b = le_bytes(units);
    if units.len() > 0 {
        let rest = units.drop_last();
        lemma_le_bytes_read_back(rest);
        let rb = le_bytes(rest);
        let u = units.last();
        assert(b == rb + seq![(u % 256) as u8, (u / 256) as u8]);
        assert forall|i: int| 0 <= i < units.len() implies (b[2 * i] + 256 * b[2 * i + 1]) as u16
            == units[i] by {
            if i < units.len() - 1 {
                assert(units_from_le(rb)[i] == rest[i]);
                assert(b[2 * i] == rb[2 * i]);
                assert(b[2 * i + 1] == rb[2 * i + 1]);
            } else {
                assert(b[2 * i] == (u % 256) as u8);
                assert(b[2 * i + 1] == (u / 256) as u8);
            }
        }
        assert(units_from_le(b) =~= units);
    } else {
        assert(units_from_le(b) =~= units);
    }
}

/// Decoding the UTF-16 units of a character sequence gives its code points.
proof fn lemma_utf16_units_read_back(s: Seq<char>)
    ensures
        utf16_decode(utf16_units(s)) == code_points(s),
    decreases s.len(),
{
    if s.len() == 0 {
        assert(code_points(s) =~= Seq::<u32>::empty());
    } else {
        let rest = s.drop_last();
        let c = s.last();
        lemma_utf16_units_read_back(rest);
        let ur = utf16_units(rest);
        let u = utf16_units(s);
        assert(u == ur + utf16_of_char(c));
        assert(code_points(s) =~= code_points(rest).push(c as u32));
        let v = c as u32;
        vstd::utf8::char_is_scalar(c);
        if v < 0x10000 {
            assert(u =~= ur.push(v as u16));
            assert(!(0xDC00 <= v < 0xE000));
            assert(u.drop_last() =~= ur);
        } else {
            let w = (v - 0x10000) as u32;
            let h = (0xD800 + w / 0x400) as u16;
            let l = (0xDC00 + w % 0x400) as u16;
            assert(u =~= ur.push(h).push(l));
            assert(u.take(u.len() - 2) =~= ur);
            assert(w < 0x100000);
            assert(h - 0xD800 == w / 0x400);
            assert(l - 0xDC00 == w % 0x400);
            assert((w / 0x400) * 0x400 + w % 0x400 == w) by (nonlinear_arith);
            assert((h - 0xD800) * 0x400 + (l - 0xDC00) + 0x10000 == v);
        }
    }
}

/// The UTF-16LE bytes of a character sequence read back, pair by pair and
/// unit by unit, to exactly its characters, in order.
pub proof fn lemma_utf16le_reads_back(s: Seq<char>)
    ensures
        utf16le(s).len() % 2 == 0,
        utf16_decode(units_from_le(utf16le(s))) == code_points(s),
{
    lemma_le_bytes_read_back(utf16_units(s));
    lemma_utf16_units_read_back(s);
}

/// The `unicodePwd` value is an even number of bytes that reads back, as
/// UTF-16LE, to a double quote, every character of the password unchanged
/// and in order, and a double quote.
pub proof fn lemma_unicode_pwd_is_quoted_password(password: Seq<char>)
    ensures
        unicode_pwd_bytes(password).len() % 2 == 0,
        utf16_decode(units_from_le(unicode_pwd_bytes(password))) == seq![0x22u32] + code_points(
            password,
        ) + seq![0x22u32],
{
    let q = seq!['"'] + password + seq!['"'];
    lemma_utf16le_reads_back(q);
    assert(code_points(q) =~= seq![0x22u32] + code_points(password) + seq![0x22u32]);
}

/// The `sambaNTPassword` value is the MD4 digest of an even number of bytes
/// that read back, as UTF-16LE, to exactly the characters of the password.
pub proof fn lemma_nt_password_hashes_the_password(password: Seq<char>)
    ensures
        exists|b: Seq<u8>|
            #![trigger md4_digest(b)]
            nt_password_bytes(password) == md4_digest(b) && b.len() % 2 == 0 && utf16_decode(
                units_from_le(b),
            ) == code_points(password),
{
    lemma_utf16le_reads_back(password);
    let b = utf16le(password);
    assert(nt_password_bytes(password) == md4_digest(b));
}

} // verus!
