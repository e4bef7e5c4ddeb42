use vstd::prelude::*;
use vstd::string::StrSliceExecFns;
use vstd::string::StringExecFns;
use vstd::utf8::decode_utf8;
use vstd::utf8::valid_utf8;

use crate::exit::ExitResult;
use crate::exit::raw_code_spec;

verus! {

/// The output of a finished process.
#[derive(Clone, PartialEq, Eq)]
pub struct Output {
    /// The status or exit code of the process.
    pub result: ExitResult,
    /// The data that the process wrote to stdout.
    pub stdout: Vec<u8>,
    /// The data that the process wrote to stderr.
    pub stderr: Vec<u8>,
}

/// The character standing for one decimal digit.
pub open spec fn dec_digit(d: int) -> char {
    if d == 0 {
        '0'
    } else if d == 1 {
        '1'
    } else if d == 2 {
        '2'
    } else if d == 3 {
        '3'
    } else if d == 4 {
        '4'
    } else if d == 5 {
        '5'
    } else if d == 6 {
        '6'
    } else if d == 7 {
        '7'
    } else if d == 8 {
        '8'
    } else {
        '9'
    }
}

/// The character standing for one hexadecimal digit, lower case.
pub open spec fn hex_digit(d: int) -> char {
    if d < 10 {
        dec_digit(d)
    } else if d == 10 {
        'a'
    } else if d == 11 {
        'b'
    } else if d == 12 {
        'c'
    } else if d == 13 {
        'd'
    } else if d == 14 {
        'e'
    } else {
        'f'
    }
}

/// The decimal rendering of a natural number, without leading zeros.
pub open spec fn dec_nat(n: nat) -> Seq<char>
    decreases n,
{
    if n < 10 {
        seq![dec_digit(n as int)]
    } else {
        dec_nat(n / 10) + seq![dec_digit((n % 10) as int)]
    }
}

/// The decimal rendering of an integer, with a leading minus sign when
/// negative.
pub open spec fn dec_int(n: int) -> Seq<char> {
    if n < 0 {
        seq!['-'] + dec_nat((-n) as nat)
    } else {
        dec_nat(n as nat)
    }
}

/// The hexadecimal rendering of a natural number, lower case, without leading
/// zeros.
pub open spec fn hex_nat(n: nat) -> Seq<char>
    decreases n,
{
    if n < 16 {
        seq![hex_digit(n as int)]
    } else {
        hex_nat(n / 16) + seq![hex_digit((n % 16) as int)]
    }
}

/// How one character appears inside a quoted rendering: quote, backslash and
/// the common control characters take a backslash escape, the remaining
/// control characters and delete take a `\u{..}` escape, and every other
/// character stands for itself.
pub open spec fn escape_char(c: char) -> Seq<char> {
    if c == '"' {
        seq!['\\', '"']
    } else if c == '\\' {
        seq!['\\', '\\']
    } else if c == '\n' {
        seq!['\\', 'n']
    } else if c == '\r' {
        seq!['\\', 'r']
    } else if c == '\t' {
        seq!['\\', 't']
    } else if (c as u32) < 0x20 || (c as u32) == 0x7f {
        seq!['\\', 'u', '{'] + hex_nat(c as u32 as nat) + seq!['}']
    } else {
        seq![c]
    }
}

/// The text escaped character by character.
pub open spec fn escape_chars(s: Seq<char>) -> Seq<char>
    decreases s.len(),
{
    if s.len() == 0 {
        Seq::empty()
    } else {
        escape_chars(s.drop_last()) + escape_char(s.last())
    }
}

/// The bytes rendered as a comma-separated list of decimal values.
pub open spec fn byte_list(b: Seq<u8>) -> Seq<char>
    decreases b.len(),
{
    if b.len() == 0 {
        Seq::empty()
    } else if b.len() == 1 {
        dec_nat(b[0] as nat)
    } else {
        byte_list(b.drop_last()) + seq![',', ' '] + dec_nat(b.last() as nat)
    }
}

/// How one captured buffer is rendered: as a quoted, escaped string when the
/// bytes are valid text, otherwise as a literal byte sequence — decided
/// independently per buffer.
pub open spec fn buffer_text(b: Seq<u8>) -> Seq<char> {
    if valid_utf8(b) {
        seq!['"'] + escape_chars(decode_utf8(b)) + seq!['"']
    } else {
        seq!['['] + byte_list(b) + seq![']']
    }
}

/// The complete diagnostic rendering of an [`Output`]: the exit result
/// flattened to its signed code, then each buffer rendered on its own.
pub open spec fn output_text(r: ExitResult, stdout: Seq<u8>, stderr: Seq<u8>) -> Seq<char> {
    "Output { result: "@ + dec_int(raw_code_spec(r)) + ", stdout: "@ + buffer_text(stdout)
        + ", stderr: "@ + buffer_text(stderr) + " }"@
}

/// Each captured buffer is rendered on its own: in any output record whose
/// stdout is valid text while its stderr is not, the rendering quotes and
/// escapes the former and lists the bytes of the latter, and the whole
/// rendering is the result code followed by those two independent parts.
pub proof fn lemma_buffer_rendering_independent(r: ExitResult, stdout: Seq<u8>, stderr: Seq<u8>)
    requires
        valid_utf8(stdout),
        !valid_utf8(stderr),
    ensures
        buffer_text(stdout) == seq!['"'] + escape_chars(decode_utf8(stdout)) + seq!['"'],
        buffer_text(stderr) == seq!['['] + byte_list(stderr) + seq![']'],
        output_text(r, stdout, stderr) == "Output { result: "@ + dec_int(raw_code_spec(r))
            + ", stdout: "@ + buffer_text(stdout) + ", stderr: "@ + buffer_text(stderr) + " }"@,
{
}

/// Relies on `core::str::from_utf8`: it returns `Ok` exactly when the bytes
/// are valid UTF-8, and the returned slice is the text those bytes encode.
#[verifier::external_body]
fn utf8_str(v: &[u8]) -> (r: Option<&str>)
    ensures
        r is Some <==> valid_utf8(v@),
        r matches Some(s) ==> s@ == decode_utf8(v@),
{
    core::str::from_utf8(v).ok()
}

/// Relies on `String::push`: it appends the given character at the end.
#[verifier::external_body]
fn push_char(s: &mut String, c: char)
    ensures
        final(s)@ == old(s)@ + seq![c],
{
    s.push(c);
}

/// One decimal digit as a character.
fn dec_digit_char(d: u8) -> (c: char)
    requires
        d < 10,
    ensures
        c == dec_digit(d as int),
{
    match d {
        0 => '0',
        1 => '1',
        2 => '2',
        3 => '3',
        4 => '4',
        5 => '5',
        6 => '6',
        7 => '7',
        8 => '8',
        _ => '9',
    }
}

/// One hexadecimal digit as a character, lower case.
fn hex_digit_char(d: u8) -> (c: char)
    requires
        d < 16,
    ensures
        c == hex_digit(d as int),
{
    match d {
        0 => '0',
        1 => '1',
        2 => '2',
        3 => '3',
        4 => '4',
        5 => '5',
        6 => '6',
        7 => '7',
        8 => '8',
        9 => '9',
        10 => 'a',
        11 => 'b',
        12 => 'c',
        13 => 'd',
        14 => 'e',
        _ => 'f',
    }
}

/// Appends the decimal rendering of `n`.
fn push_dec_u64(out: &mut String, n: u64)
    ensures
        final(out)@ == old(out)@ + dec_nat(n as nat),
    decreases n,
{
    if n >= 10 {
        push_dec_u64(out, n / 10);
    }
    push_char(out, dec_digit_char((n % 10) as u8));
    proof {
        assert(out@ =~= old(out)@ + dec_nat(n as nat));
    }
}

/// Appends the decimal rendering of `code`, with a minus sign when negative.
fn push_dec_i64(out: &mut String, code: i64)
    requires
        code > i64::MIN,
    ensures
        final(out)@ == old(out)@ + dec_int(code as int),
{
    if code < 0 {
        push_char(out, '-');
        push_dec_u64(out, (-code) as u64);
        proof {
            assert(out@ =~= old(out)@ + dec_int(code as int));
        }
    } else {
        push_dec_u64(out, code as u64);
    }
}

/// Appends the hexadecimal rendering of `u`.
fn push_hex_u32(out: &mut String, u: u32)
    ensures
        final(out)@ == old(out)@ + hex_nat(u as nat),
    decreases u,
{
    if u >= 16 {
        push_hex_u32(out, u / 16);
    }
    push_char(out, hex_digit_char((u % 16) as u8));
    proof {
        assert(out@ =~= old(out)@ + hex_nat(u as nat));
    }
}

/// Appends the escape of one character.
fn push_escape(out: &mut String, c: char)
    ensures
        final(out)@ == old(out)@ + escape_char(c),
{
    match c {
        '"' => {
            push_char(out, '\\');
            push_char(out, '"');
            proof {
                assert(out@ =~= old(out)@ + escape_char(c));
            }
        },
        '\\' => {
            push_char(out, '\\');
            push_char(out, '\\');
            proof {
                assert(out@ =~= old(out)@ + escape_char(c));
            }
        },
        '\n' => {
            push_char(out, '\\');
            push_char(out, 'n');
            proof {
                assert(out@ =~= old(out)@ + escape_char(c));
            }
        },
        '\r' => {
            push_char(out, '\\');
            push_char(out, 'r');
            proof {
                assert(out@ =~= old(out)@ + escape_char(c));
            }
        },
        '\t' => {
            push_char(out, '\\');
            push_char(out, 't');
            proof {
                assert(out@ =~= old(out)@ + escape_char(c));
            }
        },
        _ => {
            let u = c as u32;
            if u < 0x20 || u == 0x7f {
                push_char(out, '\\');
                push_char(out, 'u');
                push_char(out, '{');
                push_hex_u32(out, u);
                push_char(out, '}');
                proof {
                    assert(out@ =~= old(out)@ + escape_char(c));
                }
            } else {
                push_char(out, c);
                proof {
                    assert(out@ =~= old(out)@ + escape_char(c));
                }
            }
        },
    }
}

/// The text escaped character by character.
fn escaped(s: &str) -> (r: String)
    ensures
        r@ == escape_chars(s@),
{
    let mut out = String::new();
    let n = s.unicode_len();
    let mut i: usize = 0;
    while i < n
        invariant
            n as nat == s@.len(),
            i <= n,
            out@ == escape_chars(s@.take(i as int)),
        decreases n - i,
    {
        let c = s.get_char(i);
        push_escape(&mut out, c);
        proof {
            assert(s@.take(i as int + 1).drop_last() =~= s@.take(i as int));
            assert(s@.take(i as int + 1).last() == c);
        }
        i += 1;
    }
    proof {
        assert(s@.take(n as int) =~= s@);
    }
    out
}

/// The bytes as a comma-separated list of decimal values.
fn byte_list_str(v: &[u8]) -> (r: String)
    ensures
        r@ == byte_list(v@),
{
    let mut out = String::new();
    let mut i: usize = 0;
    while i < v.len()
        invariant
            i <= v@.len(),
            out@ == byte_list(v@.take(i as int)),
        decreases v@.len() - i,
    {
        if i > 0 {
            push_char(&mut out, ',');
            push_char(&mut out, ' ');
        }
        push_dec_u64(&mut out, v[i] as u64);
        proof {
            assert(v@.take(i as int + 1).drop_last() =~= v@.take(i as int));
            assert(v@.take(i as int + 1).last() == v@[i as int]);
            assert(out@ =~= byte_list(v@.take(i as int + 1)));
        }
        i += 1;
    }
    proof {
        assert(v@.take(v@.len() as int) =~= v@);
    }
    out
}

/// One captured buffer, rendered as quoted text or as a byte list.
fn buffer_text_str(v: &Vec<u8>) -> (r: String)
    ensures
        r@ == buffer_text(v@),
{
    let mut out = String::new();
    match utf8_str(v.as_slice()) {
        Some(s) => {
            push_char(&mut out, '"');
            let e = escaped(s);
            out.append(e.as_str());
            push_char(&mut out, '"');
            proof {
                assert(out@ =~= buffer_text(v@));
            }
        },
        None => {
            push_char(&mut out, '[');
            let b = byte_list_str(v.as_slice());
            out.append(b.as_str());
            push_char(&mut out, ']');
            proof {
                assert(out@ =~= buffer_text(v@));
            }
        },
    }
    out
}

impl Output {
    /// The diagnostic rendering of the whole record: the exit result as its
    /// flattened signed code, and each byte buffer as a quoted string when it
    /// is valid text, otherwise as a literal byte sequence.
    pub fn debug_string(&self) -> (r: String)
        ensures
            r@ == output_text(self.result, self.stdout@, self.stderr@),
    {
        let mut out = String::from_str("Output { result: ");
        let code = self.result.raw_code();
        push_dec_i64(&mut out, code);
        out.append(", stdout: ");
        let so = buffer_text_str(&self.stdout);
        out.append(so.as_str());
        out.append(", stderr: ");
        let se = buffer_text_str(&self.stderr);
        out.append(se.as_str());
        out.append(" }");
        proof {
            assert(out@ =~= output_text(self.result, self.stdout@, self.stderr@));
        }
        out
    }
}

} // verus!
