//! The boundary to the Go archive: what is written into a call and what is
//! made of the answer. The calls themselves are made outside.

pub mod proton;

use crate::text::join3;
use vstd::prelude::*;
use vstd::string::*;
use vstd::utf8::*;

verus! {

/// A parsed JSON value, carried through as it is.
#[verifier::external_type_specification]
#[verifier::external_body]
pub struct ExValue(serde_json::Value);

/// A hexadecimal digit.
pub open spec fn hex_digit(d: int) -> char {
    if d < 10 {
        (48 + d) as char
    } else {
        (87 + d) as char
    }
}

/// A character inside a JSON string: quotes, backslashes and control
/// characters are escaped.
pub open spec fn escaped(c: char) -> Seq<char> {
    if c == '"' || c == '\\' {
        seq!['\\', c]
    } else if c == '\u{8}' {
        seq!['\\', 'b']
    } else if c == '\t' {
        seq!['\\', 't']
    } else if c == '\n' {
        seq!['\\', 'n']
    } else if c == '\u{c}' {
        seq!['\\', 'f']
    } else if c == '\r' {
        seq!['\\', 'r']
    } else if (c as int) < 32 {
        seq!['\\', 'u', '0', '0', hex_digit(c as int / 16), hex_digit(c as int % 16)]
    } else {
        seq![c]
    }
}

/// The characters of `s` inside a JSON string.
pub open spec fn escaped_all(s: Seq<char>) -> Seq<char>
    decreases s.len(),
{
    if s.len() == 0 {
        Seq::empty()
    } else {
        escaped_all(s.drop_last()) + escaped(s.last())
    }
}

/// `s` as a JSON string.
pub open spec fn json_string(s: Seq<char>) -> Seq<char> {
    seq!['"'] + escaped_all(s) + seq!['"']
}

/// The members of a JSON object, with a comma between each two.
pub open spec fn json_members(fields: Seq<(Seq<char>, Seq<char>)>) -> Seq<char>
    decreases fields.len(),
{
    if fields.len() == 0 {
        Seq::empty()
    } else {
        let last = json_string(fields.last().0) + seq![':'] + json_string(fields.last().1);
        if fields.len() == 1 {
            last
        } else {
            json_members(fields.drop_last()) + seq![','] + last
        }
    }
}

/// A JSON object with these string members, in this order and without any
/// space.
pub open spec fn json_object(fields: Seq<(Seq<char>, Seq<char>)>) -> Seq<char> {
    seq!['{'] + json_members(fields) + seq!['}']
}

/// The text that was written, if any.
pub open spec fn written(r: Result<String, String>) -> Option<Seq<char>> {
    match r {
        Ok(text) => Some(text@),
        Err(_) => None,
    }
}

/// Calls `serde::Serializer::collect_map` of a `serde_json::Serializer` on the
/// members, which writes them as a compact JSON object. Writing strings into
/// memory does not fail.
#[verifier::external_body]
fn write_object(fields: &Vec<(String, String)>) -> (r: Result<String, String>)
    ensures
        written(r) == Some(json_object(fields.deep_view())),
{
    let mut out: Vec<u8> = Vec::new();
    let mut json = serde_json::Serializer::new(&mut out);
    let members = fields.iter().map(|f| (&f.0, &f.1));
    serde::Serializer::collect_map(&mut json, members).map_err(|e| e.to_string())?;
    String::from_utf8(out).map_err(|e| e.to_string())
}

/// The escape of a character is no zero.
proof fn lemma_escape_holds_no_zero(c: char)
    ensures
        forall|i: int| 0 <= i < escaped(c).len() ==> #[trigger] escaped(c)[i] != '\0',
{
}

/// The escapes leave no zero.
proof fn lemma_escapes_hold_no_zero(s: Seq<char>)
    ensures
        !escaped_all(s).contains('\0'),
    decreases s.len(),
{
    if s.len() > 0 {
        lemma_escapes_hold_no_zero(s.drop_last());
        let front = escaped_all(s.drop_last());
        let last = escaped(s.last());
        lemma_escape_holds_no_zero(s.last());
        assert forall|i: int| 0 <= i < (front + last).len() implies (front + last)[i] != '\0' by {
            if i < front.len() {
                assert((front + last)[i] == front[i]);
                assert(front.contains(front[i]));
            } else {
                assert((front + last)[i] == last[i - front.len()]);
            }
        }
    }
}

/// The members leave no zero.
proof fn lemma_members_hold_no_zero(fields: Seq<(Seq<char>, Seq<char>)>)
    ensures
        forall|i: int|
            0 <= i < json_members(fields).len() ==> #[trigger] json_members(fields)[i] != '\0',
    decreases fields.len(),
{
    if fields.len() > 0 {
        let (key, value) = fields.last();
        lemma_escapes_hold_no_zero(key);
        lemma_escapes_hold_no_zero(value);
        lemma_members_hold_no_zero(fields.drop_last());
        assert forall|s: Seq<char>, i: int|
            !escaped_all(s).contains('\0') && 0 <= i < json_string(s).len() implies #[trigger] json_string(
            s,
        )[i] != '\0' by {
            if 0 < i < json_string(s).len() - 1 {
                assert(json_string(s)[i] == escaped_all(s)[i - 1]);
                assert(escaped_all(s).contains(escaped_all(s)[i - 1]));
            }
        }
        let front = json_members(fields.drop_last());
        let name = json_string(key);
        let text = json_string(value);
        let last = name + seq![':'] + text;
        assert forall|i: int| 0 <= i < last.len() implies #[trigger] last[i] != '\0' by {
            if i < name.len() {
                assert(last[i] == name[i]);
            } else if i > name.len() {
                assert(last[i] == text[i - name.len() - 1]);
            }
        }
        let all = front + seq![','] + last;
        assert forall|i: int| 0 <= i < all.len() implies #[trigger] all[i] != '\0' by {
            if i < front.len() {
                assert(all[i] == front[i]);
            } else if i > front.len() {
                assert(all[i] == last[i - front.len() - 1]);
            }
        }
    }
}

/// A JSON object of strings holds no character 0, whatever its members are, so
/// that it can be handed over as a C string.
pub proof fn law_json_holds_no_zero(fields: Seq<(Seq<char>, Seq<char>)>)
    ensures
        !json_object(fields).contains('\0'),
{
    lemma_members_hold_no_zero(fields);
}

/// The bytes of a character other than 0 are not 0.
proof fn lemma_scalar_holds_no_zero(c: char)
    requires
        c != '\0',
    ensures
        forall|i: int|
            0 <= i < encode_scalar(c as u32).len() ==> #[trigger] encode_scalar(c as u32)[i] != 0,
{
    char_is_scalar(c);
    let s = c as u32;
    assert(has_width_1_encoding(s) ==> leading_byte_width_1(s) != 0) by (bit_vector)
        requires
            s != 0,
    ;
    assert(leading_byte_width_2(s) != 0) by (bit_vector);
    assert(leading_byte_width_3(s) != 0) by (bit_vector);
    assert(leading_byte_width_4(s) != 0) by (bit_vector);
    assert(last_continuation_byte(s) != 0) by (bit_vector);
    assert(second_last_continuation_byte(s) != 0) by (bit_vector);
    assert(third_last_continuation_byte(s) != 0) by (bit_vector);
}

/// A text without the character 0 has no zero byte.
proof fn lemma_bytes_hold_no_zero(text: Seq<char>)
    requires
        !text.contains('\0'),
    ensures
        forall|i: int| 0 <= i < encode_utf8(text).len() ==> #[trigger] encode_utf8(text)[i] != 0,
    decreases text.len(),
{
    if text.len() > 0 {
        let rest = text.drop_first();
        assert(text.contains(text[0]));
        assert forall|c: char| rest.contains(c) implies text.contains(c) by {
            let k = choose|k: int| 0 <= k < rest.len() && rest[k] == c;
            assert(text[k + 1] == c);
        }
        lemma_bytes_hold_no_zero(rest);
        lemma_scalar_holds_no_zero(text[0]);
        let first = encode_scalar(text[0] as u32);
        assert forall|i: int| 0 <= i < encode_utf8(text).len() implies #[trigger] encode_utf8(
            text,
        )[i] != 0 by {
            if i < first.len() {
                assert(encode_utf8(text)[i] == first[i]);
            } else {
                assert(encode_utf8(text)[i] == encode_utf8(rest)[i - first.len()]);
            }
        }
    }
}

/// The bytes of a C string end at their only zero, where the text holds no
/// character 0: nothing of it is lost.
pub proof fn law_c_string_is_whole(text: Seq<char>, i: int)
    requires
        !text.contains('\0'),
        0 <= i <= encode_utf8(text).len(),
    ensures
        encode_utf8(text).push(0)[i] == 0 <==> i == encode_utf8(text).len(),
{
    lemma_bytes_hold_no_zero(text);
}

/// The entry points of the native Proton client.
#[derive(Clone, Copy, Debug, PartialEq, Eq, Structural)]
pub enum Shim {
    Login,
    Logout,
    SaveSession,
    SaveSessionIfRotated,
    ResumeSession,
    RootLinkId,
    ListDirectory,
    ListRecursive,
    Stat,
    DownloadFile,
    CreateFolder,
    UploadFile,
    TrashLink,
    PermanentDeleteLink,
}

/// A call of an entry point: which one, and the members of its JSON payload.
#[derive(Clone, Debug, PartialEq, Eq)]
pub struct Request {
    pub shim: Shim,
    pub fields: Vec<(String, String)>,
}

/// A [`Request`] as a mathematical value.
pub struct RequestView {
    pub shim: Shim,
    pub fields: Seq<(Seq<char>, Seq<char>)>,
}

impl View for Request {
    type V = RequestView;

    open spec fn view(&self) -> RequestView {
        RequestView { shim: self.shim, fields: self.fields.deep_view() }
    }
}

impl Request {
    /// The JSON text that is handed to the entry point.
    pub fn payload(&self) -> (r: Result<String, String>)
        ensures
            written(r) == Some(json_object(self@.fields)),
    {
        write_object(&self.fields)
    }
}

/// The JSON envelope that every entry point answers with. `data` is absent on
/// failure, `error` is empty on success.
#[derive(Debug)]
pub struct Envelope {
    pub ok: bool,
    pub data: Option<serde_json::Value>,
    pub error: String,
}

/// What a call came to, from its answer `body` and what parsing that gave: the
/// payload, or the words on why there is none.
pub fn invoke_raw(parsed: Result<Envelope, String>, body: &str) -> (r: Result<
    Option<serde_json::Value>,
    String,
>)
    ensures
        match parsed {
            Ok(envelope) => if envelope.ok {
                r == Ok::<Option<serde_json::Value>, String>(envelope.data)
            } else {
                r == Err::<Option<serde_json::Value>, String>(envelope.error)
            },
            Err(e) => r matches Err(words) && words@ == "invalid envelope from Go: "@ + e@
                + " — body was: "@ + body@,
        },
{
    match parsed {
        Ok(envelope) => if envelope.ok {
            Ok(envelope.data)
        } else {
            Err(envelope.error)
        },
        Err(e) => {
            let mut words = join3("invalid envelope from Go: ", e.as_str(), " — body was: ");
            words.append(body);
            Err(words)
        },
    }
}

/// What a call that owes a value came to. `data` is what [`invoke_raw`] gave,
/// its payload already read as a `T` where there was one.
pub fn call_json<T>(data: Result<Option<Result<T, String>>, String>) -> (r: Result<T, String>)
    ensures
        match data {
            Err(e) => r == Err::<T, String>(e),
            Ok(None) => r matches Err(words) && words@
                == "shim returned OK but no data to deserialise"@,
            Ok(Some(Err(e))) => r matches Err(words) && words@ == "invalid response shape: "@ + e@,
            Ok(Some(Ok(value))) => r == Ok::<T, String>(value),
        },
{
    match data {
        Err(e) => Err(e),
        Ok(None) => Err("shim returned OK but no data to deserialise".to_owned()),
        Ok(Some(Err(e))) => {
            let mut words = "invalid response shape: ".to_owned();
            words.append(e.as_str());
            Err(words)
        },
        Ok(Some(Ok(value))) => Ok(value),
    }
}

/// What an rclone call came to: its output is the result where the status says
/// so, and the error otherwise.
pub fn rpc(status: i32, output: String) -> (r: Result<String, String>)
    ensures
        r == (if status == 200 {
            Ok::<String, String>(output)
        } else {
            Err(output)
        }),
{
    if status == 200 {
        Ok(output)
    } else {
        Err(output)
    }
}

/// `text` as the bytes of a C string: its UTF-8 bytes and a zero.
pub fn c_bytes(text: &str) -> (r: Vec<u8>)
    ensures
        r@ == encode_utf8(text@).push(0),
{
    let mut out = text.as_bytes_vec();
    out.push(0);
    out
}

/// The character that an escape inside a JSON string stands for, by the rules
/// of JSON.
pub open spec fn unescaped(e: Seq<char>) -> char {
    if e[0] != '\\' {
        e[0]
    } else if e[1] == 'b' {
        '\u{8}'
    } else if e[1] == 't' {
        '\t'
    } else if e[1] == 'n' {
        '\n'
    } else if e[1] == 'f' {
        '\u{c}'
    } else if e[1] == 'r' {
        '\r'
    } else if e[1] == 'u' {
        (4096 * hex_value(e[2]) + 256 * hex_value(e[3]) + 16 * hex_value(e[4]) + hex_value(
            e[5],
        )) as char
    } else {
        e[1]
    }
}

/// What a hexadecimal digit stands for.
pub open spec fn hex_value(c: char) -> int {
    if '0' <= c <= '9' {
        c as int - '0' as int
    } else {
        10 + (c as int - 'a' as int)
    }
}

/// Every character can be read back from the way it stands in a JSON string,
/// where it is no quote, no backslash and no control character unless it is
/// behind a backslash.
pub proof fn law_escapes_are_read_back(c: char)
    ensures
        unescaped(escaped(c)) == c,
        escaped(c).len() > 0,
        escaped(c)[0] != '\\' ==> escaped(c) == seq![c] && c != '"' && c as int >= 32,
        forall|i: int| 0 <= i < escaped(c).len() ==> (#[trigger] escaped(c)[i]) as int >= 32,
{
    if (c as int) < 32 {
        assert(0 <= c as int / 16 < 2);
        assert(0 <= c as int % 16 < 16);
        assert(c as int == 16 * (c as int / 16) + c as int % 16);
    }
}

/// Strings are written one character after the other.
pub proof fn law_strings_are_written_through(a: Seq<char>, b: Seq<char>)
    ensures
        escaped_all(a + b) == escaped_all(a) + escaped_all(b),
    decreases b.len(),
{
    if b.len() == 0 {
        assert(a + b =~= a);
        assert(escaped_all(a) + escaped_all(b) =~= escaped_all(a));
    } else {
        law_strings_are_written_through(a, b.drop_last());
        assert((a + b).drop_last() =~= a + b.drop_last());
        assert(escaped_all(a + b) =~= escaped_all(a) + escaped_all(b));
    }
}

/// An object holds all of its members, in their order.
pub proof fn law_members_are_all_written(
    fields: Seq<(Seq<char>, Seq<char>)>,
    name: Seq<char>,
    value: Seq<char>,
)
    ensures
        json_object(Seq::empty()) == seq!['{', '}'],
        json_object(fields.push((name, value))) == json_object(fields).drop_last() + (
        if fields.len() == 0 {
            Seq::empty()
        } else {
            seq![',']
        }) + seq!['"'] + escaped_all(name) + seq!['"', ':', '"'] + escaped_all(value) + seq![
            '"',
            '}',
        ],
{
    assert(json_object(Seq::empty()) =~= seq!['{', '}']);
    let all = fields.push((name, value));
    assert(all.drop_last() =~= fields);
    assert(json_object(all) =~= json_object(fields).drop_last() + (if fields.len() == 0 {
        Seq::empty()
    } else {
        seq![',']
    }) + seq!['"'] + escaped_all(name) + seq!['"', ':', '"'] + escaped_all(value) + seq!['"', '}']);
}

} // verus!
