//! The outbound wire codec.
//!
//! A command crosses the pipe as one newline-terminated line holding the JSON
//! object `{"command": <name>, "args": <value>}`. The command name is escaped
//! exactly as a JSON string; the args part is compact JSON text supplied by
//! the caller and already free of newline bytes, so the whole line holds
//! exactly one newline: its terminator.

use vstd::prelude::*;
use vstd::string::StringSliceAdditionalSpecFns;

verus! {

/// The newline byte that terminates every wire line.
pub const NL: u8 = 10;

/// True when no byte of `s` is a newline.
pub open spec fn no_newline(s: Seq<u8>) -> bool {
    forall|i: int| 0 <= i < s.len() ==> s[i] != NL
}

/// The lower-case hex digit for `n < 16`.
pub open spec fn hex_digit(n: u8) -> u8 {
    if n < 10 {
        (0x30 + n) as u8
    } else {
        (0x57 + n) as u8
    }
}

/// How one byte of a string appears inside a JSON string literal: quote,
/// backslash and the named control characters get two-byte escapes, every
/// other control byte becomes `\u00xx`, and all remaining bytes (including
/// the interior bytes of multi-byte UTF-8 sequences) pass through unchanged.
pub open spec fn escaped_byte(b: u8) -> Seq<u8> {
    if b == 0x22 {
        seq![0x5c, 0x22]
    } else if b == 0x5c {
        seq![0x5c, 0x5c]
    } else if b == 0x08 {
        seq![0x5c, 0x62]
    } else if b == 0x09 {
        seq![0x5c, 0x74]
    } else if b == 0x0a {
        seq![0x5c, 0x6e]
    } else if b == 0x0c {
        seq![0x5c, 0x66]
    } else if b == 0x0d {
        seq![0x5c, 0x72]
    } else if b < 0x20 {
        seq![0x5c, 0x75, 0x30, 0x30, hex_digit(b / 16), hex_digit(b % 16)]
    } else {
        seq![b]
    }
}

/// The JSON string escaping of a whole byte sequence.
pub open spec fn escaped_bytes(s: Seq<u8>) -> Seq<u8>
    decreases s.len(),
{
    if s.len() == 0 {
        Seq::empty()
    } else {
        escaped_bytes(s.drop_last()) + escaped_byte(s.last())
    }
}

/// The bytes of `{"command":"` — the opening of the envelope object.
pub open spec fn envelope_opening() -> Seq<u8> {
    seq![0x7b, 0x22, 0x63, 0x6f, 0x6d, 0x6d, 0x61, 0x6e, 0x64, 0x22, 0x3a, 0x22]
}

/// The bytes of `","args":` — between the command name and the args value.
pub open spec fn envelope_separator() -> Seq<u8> {
    seq![0x22, 0x2c, 0x22, 0x61, 0x72, 0x67, 0x73, 0x22, 0x3a]
}

/// The full wire line for a command: the envelope object around the escaped
/// command name and the args text, closed and terminated by one newline.
pub open spec fn envelope_bytes(cmd: Seq<u8>, args: Seq<u8>) -> Seq<u8> {
    envelope_opening() + escaped_bytes(cmd) + envelope_separator() + args + seq![0x7d, NL]
}

/// The lower-case hex digit for `n < 16`, executably.
fn hex_digit_exec(n: u8) -> (r: u8)
    requires
        n < 16,
    ensures
        r == hex_digit(n),
{
    if n < 10 {
        0x30 + n
    } else {
        0x57 + n
    }
}

/// Append the JSON string escaping of one byte.
fn push_escaped_byte(out: &mut Vec<u8>, b: u8)
    ensures
        final(out)@ == old(out)@ + escaped_byte(b),
{
    if b == 0x22 {
        out.push(0x5c);
        out.push(0x22);
    } else if b == 0x5c {
        out.push(0x5c);
        out.push(0x5c);
    } else if b == 0x08 {
        out.push(0x5c);
        out.push(0x62);
    } else if b == 0x09 {
        out.push(0x5c);
        out.push(0x74);
    } else if b == 0x0a {
        out.push(0x5c);
        out.push(0x6e);
    } else if b == 0x0c {
        out.push(0x5c);
        out.push(0x66);
    } else if b == 0x0d {
        out.push(0x5c);
        out.push(0x72);
    } else if b < 0x20 {
        out.push(0x5c);
        out.push(0x75);
        out.push(0x30);
        out.push(0x30);
        out.push(hex_digit_exec(b / 16));
        out.push(hex_digit_exec(b % 16));
    } else {
        out.push(b);
    }
    assert(final(out)@ =~= old(out)@ + escaped_byte(b));
}

/// Build the one wire line for `command` with the already-serialized args
/// text `args_json`: exactly the envelope object, newline-terminated.
pub fn encode_envelope(command: &str, args_json: &Vec<u8>) -> (r: Vec<u8>)
    ensures
        r@ == envelope_bytes(command.spec_bytes(), args_json@),
{
    let cmd: &[u8] = command.as_bytes();
    let mut out: Vec<u8> = Vec::new();
    out.push(0x7b);
    out.push(0x22);
    out.push(0x63);
    out.push(0x6f);
    out.push(0x6d);
    out.push(0x6d);
    out.push(0x61);
    out.push(0x6e);
    out.push(0x64);
    out.push(0x22);
    out.push(0x3a);
    out.push(0x22);
    assert(out@ =~= envelope_opening());
    let mut i: usize = 0;
    while i < cmd.len()
        invariant
            i <= cmd.len(),
            cmd@ == command.spec_bytes(),
            out@ == envelope_opening() + escaped_bytes(cmd@.subrange(0, i as int)),
        decreases cmd.len() - i,
    {
        let b: u8 = cmd[i];
        push_escaped_byte(&mut out, b);
        proof {
            assert(cmd@.subrange(0, i + 1 as int).drop_last() =~= cmd@.subrange(0, i as int));
            assert(cmd@.subrange(0, i + 1 as int).last() == b);
        }
        i = i + 1;
    }
    proof {
        assert(cmd@.subrange(0, cmd@.len() as int) =~= cmd@);
    }
    out.push(0x22);
    out.push(0x2c);
    out.push(0x22);
    out.push(0x61);
    out.push(0x72);
    out.push(0x67);
    out.push(0x73);
    out.push(0x22);
    out.push(0x3a);
    assert(out@ =~= envelope_opening() + escaped_bytes(command.spec_bytes())
        + envelope_separator());
    let mut j: usize = 0;
    while j < args_json.len()
        invariant
            j <= args_json.len(),
            out@ == envelope_opening() + escaped_bytes(command.spec_bytes())
                + envelope_separator() + args_json@.subrange(0, j as int),
        decreases args_json.len() - j,
    {
        let b: u8 = args_json[j];
        out.push(b);
        proof {
            assert(args_json@.subrange(0, j + 1 as int) =~= args_json@.subrange(0, j as int)
                + seq![args_json@[j as int]]);
        }
        j = j + 1;
    }
    proof {
        assert(args_json@.subrange(0, args_json@.len() as int) =~= args_json@);
    }
    out.push(0x7d);
    out.push(NL);
    assert(out@ =~= envelope_bytes(command.spec_bytes(), args_json@));
    out
}

/// The escaping of a single byte never holds a newline byte.
proof fn lemma_escaped_byte_no_newline(b: u8)
    ensures
        no_newline(escaped_byte(b)),
{
}

/// The escaping of a whole sequence never holds a newline byte: a newline in
/// the command name crosses the wire as the two bytes `\n`.
pub proof fn lemma_escaped_no_newline(s: Seq<u8>)
    ensures
        no_newline(escaped_bytes(s)),
    decreases s.len(),
{
    if s.len() > 0 {
        lemma_escaped_no_newline(s.drop_last());
        lemma_escaped_byte_no_newline(s.last());
    }
}

/// A wire line is exactly one line: whatever the command name, as long as the
/// args text holds no newline, the envelope's only newline byte is its last.
pub proof fn lemma_envelope_single_line(cmd: Seq<u8>, args: Seq<u8>)
    requires
        no_newline(args),
    ensures
        envelope_bytes(cmd, args).len() > 0,
        envelope_bytes(cmd, args).last() == NL,
        forall|i: int|
            0 <= i < envelope_bytes(cmd, args).len() - 1 ==> envelope_bytes(cmd, args)[i] != NL,
{
    lemma_escaped_no_newline(cmd);
    assert(no_newline(envelope_opening()));
    assert(no_newline(envelope_separator()));
}

} // verus!
