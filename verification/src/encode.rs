//! Byte-level encoders for the outbound notification: percent-encoding of
//! query parameter values, and the JSON object a POST dispatch sends.
//!
//! Both encoders are specified over byte sequences and proved exact; the
//! query parameters are appended to the endpoint as `?id=..&state=..`.

use vstd::prelude::*;
use vstd::string::StrSliceExecFns;
use vstd::string::StringExecFns;
use vstd::string::StringSliceAdditionalSpecFns;
use vstd::utf8::encode_utf8;

verus! {

/// The UTF-8 bytes a character sequence encodes to; the domain over which
/// both encoders are specified.
pub open spec fn str_bytes(cs: Seq<char>) -> Seq<u8> {
    encode_utf8(cs)
}

/// Whether a byte passes percent-encoding unchanged: the unreserved
/// characters of a URI, `A`-`Z`, `a`-`z`, `0`-`9`, `-`, `.`, `_` and `~`.
pub open spec fn is_unreserved(b: u8) -> bool {
    (65 <= b <= 90) || (97 <= b <= 122) || (48 <= b <= 57) || b == 45 || b == 46
        || b == 95 || b == 126
}

/// The digit character for one hex nibble, upper case: `0`-`9` then
/// `A`-`F`.
pub open spec fn hex_digit(n: u8) -> u8 {
    if n < 10 {
        (48 + n) as u8
    } else {
        (65 + (n - 10)) as u8
    }
}

/// The percent-encoding of one byte: unreserved bytes pass through, every
/// other byte becomes `%` and two hex digits.
pub open spec fn enc_byte(b: u8) -> Seq<u8> {
    if is_unreserved(b) {
        seq![b]
    } else {
        seq![37, hex_digit(b / 16), hex_digit(b % 16)]
    }
}

/// The percent-encoding of a byte sequence.
pub open spec fn enc_bytes(s: Seq<u8>) -> Seq<u8>
    decreases s.len(),
{
    if s.len() == 0 {
        Seq::empty()
    } else {
        enc_byte(s[0]) + enc_bytes(s.drop_first())
    }
}

proof fn lemma_enc_bytes_push(s: Seq<u8>, b: u8)
    ensures
        enc_bytes(s.push(b)) == enc_bytes(s) + enc_byte(b),
    decreases s.len(),
{
    assert(s.push(b)[0] == if s.len() == 0 { b } else { s[0] });
    if s.len() == 0 {
        assert(s.push(b).drop_first() =~= Seq::<u8>::empty());
        assert(enc_bytes(s.push(b)) =~= enc_byte(b) + enc_bytes(Seq::<u8>::empty()));
        assert(enc_bytes(s.push(b)) =~= enc_bytes(s) + enc_byte(b));
    } else {
        lemma_enc_bytes_push(s.drop_first(), b);
        assert(s.push(b).drop_first() =~= s.drop_first().push(b));
        assert(enc_bytes(s.push(b)) =~= enc_bytes(s) + enc_byte(b));
    }
}

/// Every byte of a percent-encoded sequence is ASCII.
proof fn lemma_enc_bytes_ascii(s: Seq<u8>)
    ensures
        forall|i: int| 0 <= i < enc_bytes(s).len() ==> enc_bytes(s)[i] < 0x80,
    decreases s.len(),
{
    if s.len() > 0 {
        lemma_enc_bytes_ascii(s.drop_first());
        let head = enc_byte(s[0]);
        let tail = enc_bytes(s.drop_first());
        assert forall|i: int| 0 <= i < enc_bytes(s).len() implies enc_bytes(s)[i] < 0x80 by {
            if i < head.len() {
                assert(enc_bytes(s)[i] == head[i]);
            } else {
                assert(enc_bytes(s)[i] == tail[i - head.len()]);
            }
        }
    }
}

fn hex_digit_exec(n: u8) -> (r: u8)
    requires
        n < 16,
    ensures
        r == hex_digit(n),
{
    if n < 10 {
        48 + n
    } else {
        65 + (n - 10)
    }
}

/// Percent-encodes a byte sequence.
pub fn percent_encode_bytes(bytes: &[u8]) -> (r: Vec<u8>)
    ensures
        r@ == enc_bytes(bytes@),
{
    let mut out: Vec<u8> = Vec::new();
    let mut i: usize = 0;
    while i < bytes.len()
        invariant
            i <= bytes@.len(),
            out@ == enc_bytes(bytes@.take(i as int)),
        decreases bytes@.len() - i,
    {
        let b = bytes[i];
        if (b >= 65 && b <= 90) || (b >= 97 && b <= 122) || (b >= 48 && b <= 57) || b
            == 45 || b == 46 || b == 95 || b == 126 {
            out.push(b);
        } else {
            out.push(37);
            out.push(hex_digit_exec(b / 16));
            out.push(hex_digit_exec(b % 16));
        }
        proof {
            lemma_enc_bytes_push(bytes@.take(i as int), bytes@[i as int]);
            assert(bytes@.take(i as int).push(bytes@[i as int]) =~= bytes@.take(i + 1 as int));
            assert(out@ =~= enc_bytes(bytes@.take(i + 1 as int)));
        }
        i = i + 1;
    }
    proof {
        assert(bytes@.take(bytes@.len() as int) =~= bytes@);
    }
    out
}

/// The characters an ASCII byte sequence spells.
pub open spec fn ascii_chars(b: Seq<u8>) -> Seq<char> {
    b.map_values(|x: u8| x as char)
}

/// Relies on `String::from_utf8`: bytes below 0x80 are single-byte UTF-8
/// scalars, so they decode to exactly those characters and decoding cannot
/// fail.
#[verifier::external_body]
fn ascii_to_string(v: Vec<u8>) -> (r: String)
    requires
        forall|i: int| 0 <= i < v@.len() ==> v@[i] < 0x80,
    ensures
        r@.len() == v@.len(),
        forall|i: int| 0 <= i < v@.len() ==> r@[i] == v@[i] as char,
{
    String::from_utf8(v).unwrap()
}

/// Percent-encodes one query parameter value.
pub fn encode_component(s: &str) -> (r: String)
    ensures
        r@ == ascii_chars(enc_bytes(str_bytes(s@))),
{
    let encoded = percent_encode_bytes(s.as_bytes());
    proof {
        lemma_enc_bytes_ascii(str_bytes(s@));
    }
    let r = ascii_to_string(encoded);
    proof {
        assert(r@ =~= ascii_chars(enc_bytes(str_bytes(s@))));
    }
    r
}

/// The URL a dispatch calls: the endpoint with the percent-encoded `id` and
/// `state` query parameters appended.
pub open spec fn notify_url_view(base: Seq<char>, id_bytes: Seq<u8>, state_bytes: Seq<u8>) -> Seq<
    char,
> {
    base + "?id="@ + ascii_chars(enc_bytes(id_bytes)) + "&state="@ + ascii_chars(
        enc_bytes(state_bytes),
    )
}

/// Builds the URL a dispatch calls.
pub fn build_notify_url(base: &str, id: &str, state: &str) -> (r: String)
    ensures
        r@ == notify_url_view(base@, str_bytes(id@), str_bytes(state@)),
{
    let mut url: String = base.to_owned();
    url.append("?id=");
    let e_id = encode_component(id);
    url.append(e_id.as_str());
    url.append("&state=");
    let e_state = encode_component(state);
    url.append(e_state.as_str());
    url
}

/// The JSON string escaping of one byte: quote and backslash are escaped,
/// control bytes become `\u00XX`, and everything else (UTF-8 continuation
/// bytes included) passes through.
pub open spec fn json_esc_byte(b: u8) -> Seq<u8> {
    if b == 34 {
        seq![92, 34]
    } else if b == 92 {
        seq![92, 92]
    } else if b < 0x20 {
        seq![92, 117, 48, 48, hex_digit(b / 16), hex_digit(b % 16)]
    } else {
        seq![b]
    }
}

/// The JSON string escaping of a byte sequence.
pub open spec fn json_esc(s: Seq<u8>) -> Seq<u8>
    decreases s.len(),
{
    if s.len() == 0 {
        Seq::empty()
    } else {
        json_esc_byte(s[0]) + json_esc(s.drop_first())
    }
}

proof fn lemma_json_esc_push(s: Seq<u8>, b: u8)
    ensures
        json_esc(s.push(b)) == json_esc(s) + json_esc_byte(b),
    decreases s.len(),
{
    assert(s.push(b)[0] == if s.len() == 0 { b } else { s[0] });
    if s.len() == 0 {
        assert(s.push(b).drop_first() =~= Seq::<u8>::empty());
        assert(json_esc(s.push(b)) =~= json_esc_byte(b) + json_esc(Seq::<u8>::empty()));
        assert(json_esc(s.push(b)) =~= json_esc(s) + json_esc_byte(b));
    } else {
        lemma_json_esc_push(s.drop_first(), b);
        assert(s.push(b).drop_first() =~= s.drop_first().push(b));
        assert(json_esc(s.push(b)) =~= json_esc(s) + json_esc_byte(b));
    }
}

/// Appends the JSON string escaping of `bytes` to `out`.
fn json_escape_into(out: &mut Vec<u8>, bytes: &[u8])
    ensures
        final(out)@ == old(out)@ + json_esc(bytes@),
{
    let mut i: usize = 0;
    while i < bytes.len()
        invariant
            i <= bytes@.len(),
            out@ == old(out)@ + json_esc(bytes@.take(i as int)),
        decreases bytes@.len() - i,
    {
        let b = bytes[i];
        if b == 34 {
            out.push(92);
            out.push(34);
        } else if b == 92 {
            out.push(92);
            out.push(92);
        } else if b < 0x20 {
            out.push(92);
            out.push(117);
            out.push(48);
            out.push(48);
            out.push(hex_digit_exec(b / 16));
            out.push(hex_digit_exec(b % 16));
        } else {
            out.push(b);
        }
        proof {
            lemma_json_esc_push(bytes@.take(i as int), bytes@[i as int]);
            assert(bytes@.take(i as int).push(bytes@[i as int]) =~= bytes@.take(i + 1 as int));
            assert(out@ =~= old(out)@ + json_esc(bytes@.take(i + 1 as int)));
        }
        i = i + 1;
    }
    proof {
        assert(bytes@.take(bytes@.len() as int) =~= bytes@);
    }
}

/// Spells `{"id":"`.
pub open spec fn lit_obj_id() -> Seq<u8> {
    seq![123u8, 34, 105, 100, 34, 58, 34]
}

/// Spells `","state":"`.
pub open spec fn lit_sep_state() -> Seq<u8> {
    seq![34u8, 44, 34, 115, 116, 97, 116, 101, 34, 58, 34]
}

/// Spells `","info":"`.
pub open spec fn lit_sep_info() -> Seq<u8> {
    seq![34u8, 44, 34, 105, 110, 102, 111, 34, 58, 34]
}

/// Spells `"}`.
pub open spec fn lit_obj_end() -> Seq<u8> {
    seq![34u8, 125]
}

/// The body a POST dispatch sends: a JSON object with the record's `id`,
/// `state`, and `info` (the empty string when `info` is absent).
pub open spec fn post_body_view(id_bytes: Seq<u8>, state_bytes: Seq<u8>, info_bytes: Seq<u8>) -> Seq<
    u8,
> {
    lit_obj_id() + json_esc(id_bytes) + lit_sep_state() + json_esc(state_bytes) + lit_sep_info()
        + json_esc(info_bytes) + lit_obj_end()
}

/// Builds the body a POST dispatch sends.
#[verifier::rlimit(30)]
pub fn build_post_body(id: &str, state: &str, info: &Option<String>) -> (r: Vec<u8>)
    ensures
        r@ == post_body_view(
            str_bytes(id@),
            str_bytes(state@),
            match info {
                Some(s) => str_bytes(s@),
                None => Seq::empty(),
            },
        ),
{
    let ghost idb = str_bytes(id@);
    let ghost stb = str_bytes(state@);
    let ghost infob: Seq<u8> = match info {
        Some(s) => str_bytes(s@),
        None => Seq::empty(),
    };
    let mut out: Vec<u8> = Vec::new();
    out.push(123);
    out.push(34);
    out.push(105);
    out.push(100);
    out.push(34);
    out.push(58);
    out.push(34);
    proof {
        assert(out@ =~= lit_obj_id());
    }
    json_escape_into(&mut out, id.as_bytes());
    proof {
        assert(out@ == lit_obj_id() + json_esc(idb));
    }
    out.push(34);
    out.push(44);
    out.push(34);
    out.push(115);
    out.push(116);
    out.push(97);
    out.push(116);
    out.push(101);
    out.push(34);
    out.push(58);
    out.push(34);
    proof {
        assert(out@ =~= lit_obj_id() + json_esc(idb) + lit_sep_state());
    }
    json_escape_into(&mut out, state.as_bytes());
    proof {
        assert(out@ == lit_obj_id() + json_esc(idb) + lit_sep_state() + json_esc(stb));
    }
    out.push(34);
    out.push(44);
    out.push(34);
    out.push(105);
    out.push(110);
    out.push(102);
    out.push(111);
    out.push(34);
    out.push(58);
    out.push(34);
    proof {
        assert(out@ =~= lit_obj_id() + json_esc(idb) + lit_sep_state() + json_esc(stb)
            + lit_sep_info());
    }
    match info {
        Some(s) => {
            json_escape_into(&mut out, s.as_str().as_bytes());
        },
        None => {
            proof {
                assert(json_esc(infob) =~= Seq::<u8>::empty());
                assert(out@ =~= out@ + json_esc(infob));
            }
        },
    }
    proof {
        assert(out@ == lit_obj_id() + json_esc(idb) + lit_sep_state() + json_esc(stb)
            + lit_sep_info() + json_esc(infob));
    }
    out.push(34);
    out.push(125);
    proof {
        assert(out@ =~= post_body_view(idb, stb, infob));
    }
    out
}

} // verus!
