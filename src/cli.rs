//! The grammar of the `sysvqueue` tool, `<command> <hex-queue-id> [<text>]`,
//! and the reading of a received payload as text.

use vstd::prelude::*;
use vstd::utf8::{decode_utf8, encode_utf8, encode_utf8_decode_utf8, encode_utf8_valid_utf8, valid_utf8};

use crate::message::{BUFFER_SIZE, lemma_round_trip, received_payload, sent_bytes, sent_len};

verus! {

/// One invocation of the tool.
pub enum Command {
    /// Send `text` with type tag 1.
    Send { queue_id: i32, text: Vec<u8> },
    /// Receive the oldest message of any type and print it.
    Receive { queue_id: i32 },
    /// Destroy the queue.
    Remove { queue_id: i32 },
}

/// Why an invocation fails.
#[derive(Debug)]
pub enum ToolError {
    /// Wrong number of arguments, or a queue id that is not hexadecimal.
    MalformedArguments,
    /// The command word is none of `send`, `receive`, `remove`.
    UnknownCommand,
    /// The kernel refused an operation; the description of its error.
    Os(String),
    /// A received payload is not UTF-8 text.
    Decode,
}

impl Command {
    pub open spec fn spec_queue_id(&self) -> i32 {
        match self {
            Command::Send { queue_id, .. } => *queue_id,
            Command::Receive { queue_id } => *queue_id,
            Command::Remove { queue_id } => *queue_id,
        }
    }

    /// The queue that the invocation names.
    pub fn queue_id(&self) -> (r: i32)
        ensures
            r == self.spec_queue_id(),
    {
        match self {
            Command::Send { queue_id, .. } => *queue_id,
            Command::Receive { queue_id } => *queue_id,
            Command::Remove { queue_id } => *queue_id,
        }
    }
}

pub open spec fn is_hex_digit(c: char) -> bool {
    ('0' <= c && c <= '9') || ('a' <= c && c <= 'f') || ('A' <= c && c <= 'F')
}

pub open spec fn hex_digit_value(c: char) -> int {
    if '0' <= c && c <= '9' {
        c as int - '0' as int
    } else if 'a' <= c && c <= 'f' {
        c as int - 'a' as int + 10
    } else {
        c as int - 'A' as int + 10
    }
}

/// The number that a string of hexadecimal digits writes.
pub open spec fn hex_value(s: Seq<char>) -> int
    decreases s.len(),
{
    if s.len() == 0 {
        0
    } else {
        hex_value(s.drop_last()) * 16 + hex_digit_value(s.last())
    }
}

/// The digits of a queue id token: an `0x` or `0X` prefix is dropped when
/// digits follow it.
pub open spec fn id_digits(token: Seq<char>) -> Seq<char> {
    if token.len() >= 3 && token[0] == '0' && (token[1] == 'x' || token[1] == 'X') {
        token.skip(2)
    } else {
        token
    }
}

/// A token names a queue: one or more hexadecimal digits, after an optional
/// prefix, whose value fits in an `i32`.
pub open spec fn valid_queue_id(token: Seq<char>) -> bool {
    let d = id_digits(token);
    &&& d.len() > 0
    &&& forall|i: int| 0 <= i < d.len() ==> is_hex_digit(#[trigger] d[i])
    &&& hex_value(d) <= i32::MAX
}

proof fn lemma_hex_value_nonneg(s: Seq<char>)
    requires
        forall|i: int| 0 <= i < s.len() ==> is_hex_digit(#[trigger] s[i]),
    ensures
        hex_value(s) >= 0,
    decreases s.len(),
{
    if s.len() > 0 {
        lemma_hex_value_nonneg(s.drop_last());
    }
}

/// Appending digits never makes the value smaller.
proof fn lemma_hex_value_prefix(s: Seq<char>, j: int)
    requires
        0 <= j <= s.len(),
        forall|i: int| 0 <= i < s.len() ==> is_hex_digit(#[trigger] s[i]),
    ensures
        hex_value(s.take(j)) <= hex_value(s),
    decreases s.len() - j,
{
    if j < s.len() {
        lemma_hex_value_prefix(s, j + 1);
        let t = s.take(j + 1);
        assert(t.drop_last() =~= s.take(j));
        lemma_hex_value_nonneg(s.take(j));
    } else {
        assert(s.take(j) =~= s);
    }
}

/// The queue id that `token` writes in hexadecimal.
pub fn parse_queue_id(token: &str) -> (r: Option<i32>)
    ensures
        r is Some <==> valid_queue_id(token@),
        r matches Some(v) ==> v == hex_value(id_digits(token@)),
{
    let n = token.unicode_len();
    let mut start: usize = 0;
    if n >= 3 && token.get_char(0) == '0' {
        let c = token.get_char(1);
        if c == 'x' || c == 'X' {
            start = 2;
        }
    }
    proof {
        assert(id_digits(token@) =~= token@.skip(start as int));
    }
    let ghost d = id_digits(token@);
    if start == n {
        return None;
    }
    let mut acc: i64 = 0;
    let mut i: usize = start;
    while i < n
        invariant
            n == token@.len(),
            start <= i <= n,
            d == token@.skip(start as int),
            d == id_digits(token@),
            forall|k: int| 0 <= k < i - start ==> is_hex_digit(#[trigger] d[k]),
            acc == hex_value(d.take(i - start)),
            0 <= acc <= i32::MAX,
        decreases n - i,
    {
        let c = token.get_char(i);
        proof {
            assert(d[i - start] == c);
            assert(d.take(i - start + 1).drop_last() =~= d.take(i - start));
        }
        let v: i64 = if '0' <= c && c <= '9' {
            (c as i64) - ('0' as i64)
        } else if 'a' <= c && c <= 'f' {
            (c as i64) - ('a' as i64) + 10
        } else if 'A' <= c && c <= 'F' {
            (c as i64) - ('A' as i64) + 10
        } else {
            return None;
        };
        acc = acc * 16 + v;
        i = i + 1;
        if acc > i32::MAX as i64 {
            proof {
                if valid_queue_id(token@) {
                    lemma_hex_value_prefix(d, i - start);
                }
            }
            return None;
        }
    }
    proof {
        assert(d.take(i - start) =~= d);
    }
    Some(acc as i32)
}

/// `token` is exactly `word`.
pub fn token_is(token: &str, word: &str) -> (r: bool)
    ensures
        r == (token@ == word@),
{
    let n = token.unicode_len();
    if n != word.unicode_len() {
        return false;
    }
    let mut i: usize = 0;
    while i < n
        invariant
            n == token@.len() == word@.len(),
            i <= n,
            forall|k: int| 0 <= k < i ==> token@[k] == word@[k],
        decreases n - i,
    {
        if token.get_char(i) != word.get_char(i) {
            return false;
        }
        i = i + 1;
    }
    assert(token@ =~= word@);
    true
}

/// `r` is what the arguments `args`, the program's name first, ask for.
pub open spec fn parses_to(args: Seq<Seq<char>>, r: Result<Command, ToolError>) -> bool {
    if args.len() < 3 || !valid_queue_id(args[2]) {
        r matches Err(ToolError::MalformedArguments)
    } else {
        let id = hex_value(id_digits(args[2]));
        if args[1] == "send"@ {
            if args.len() == 4 {
                r matches Ok(Command::Send { queue_id, text }) && queue_id == id && text@
                    == encode_utf8(args[3])
            } else {
                r matches Err(ToolError::MalformedArguments)
            }
        } else if args[1] == "receive"@ || args[1] == "remove"@ {
            if args.len() == 3 {
                if args[1] == "receive"@ {
                    r matches Ok(Command::Receive { queue_id }) && queue_id == id
                } else {
                    r matches Ok(Command::Remove { queue_id }) && queue_id == id
                }
            } else {
                r matches Err(ToolError::MalformedArguments)
            }
        } else {
            r matches Err(ToolError::UnknownCommand)
        }
    }
}

/// The views of the arguments.
pub open spec fn arg_views(args: Seq<String>) -> Seq<Seq<char>> {
    args.map_values(|a: String| a@)
}

/// Reads the tool's arguments, the program's name first:
/// `send <id> <text>`, `receive <id>` or `remove <id>`, the id in
/// hexadecimal. Nothing here touches a queue.
pub fn parse_invocation(args: &Vec<String>) -> (r: Result<Command, ToolError>)
    ensures
        parses_to(arg_views(args@), r),
{
    let ghost a = arg_views(args@);
    if args.len() < 3 {
        return Err(ToolError::MalformedArguments);
    }
    assert(a[1] == args@[1]@ && a[2] == args@[2]@);
    let queue_id = match parse_queue_id(args[2].as_str()) {
        Some(v) => v,
        None => {
            return Err(ToolError::MalformedArguments);
        },
    };
    let word = args[1].as_str();
    if token_is(word, "send") {
        if args.len() == 4 {
            assert(a[3] == args@[3]@);
            let text = args[3].as_str().as_bytes_vec();
            Ok(Command::Send { queue_id, text })
        } else {
            Err(ToolError::MalformedArguments)
        }
    } else if token_is(word, "receive") {
        if args.len() == 3 {
            Ok(Command::Receive { queue_id })
        } else {
            Err(ToolError::MalformedArguments)
        }
    } else if token_is(word, "remove") {
        if args.len() == 3 {
            Ok(Command::Remove { queue_id })
        } else {
            Err(ToolError::MalformedArguments)
        }
    } else {
        Err(ToolError::UnknownCommand)
    }
}

/// Relies on `String::from_utf8`: it accepts exactly the well-formed UTF-8
/// byte sequences and keeps the characters that they encode.
#[verifier::external_body]
fn text_from_utf8(bytes: Vec<u8>) -> (r: Option<String>)
    ensures
        r is Some <==> valid_utf8(bytes@),
        r matches Some(s) ==> s@ == decode_utf8(bytes@),
{
    String::from_utf8(bytes).ok()
}

/// The text that `receive` prints for the outcome of a receive: the
/// payload read as UTF-8.
pub fn received_text(outcome: Result<(i32, Vec<u8>), String>) -> (r: Result<String, ToolError>)
    ensures
        outcome matches Err(e) ==> r == Err::<String, ToolError>(ToolError::Os(e)),
        outcome matches Ok((_, p)) ==> (valid_utf8(p@) <==> r is Ok),
        outcome matches Ok((_, p)) ==> (r matches Ok(s) ==> s@ == decode_utf8(p@)),
        outcome matches Ok((_, p)) ==> (!valid_utf8(p@) ==> r matches Err(ToolError::Decode)),
{
    match outcome {
        Err(e) => Err(ToolError::Os(e)),
        Ok((_, payload)) => match text_from_utf8(payload) {
            Some(s) => Ok(s),
            None => Err(ToolError::Decode),
        },
    }
}

/// A text whose UTF-8 form fits in a message is sent whole and read back
/// unchanged from a record whose text area starts with the bytes that were
/// sent.
pub proof fn lemma_text_round_trip(text: Seq<char>, delivered: Seq<u8>)
    requires
        encode_utf8(text).len() <= BUFFER_SIZE,
        delivered.len() == BUFFER_SIZE,
        delivered.take(sent_len(encode_utf8(text)) as int) == sent_bytes(encode_utf8(text)),
    ensures
        received_payload(delivered, sent_len(encode_utf8(text))) == encode_utf8(text),
        valid_utf8(received_payload(delivered, sent_len(encode_utf8(text)))),
        decode_utf8(received_payload(delivered, sent_len(encode_utf8(text)))) == text,
{
    lemma_round_trip(encode_utf8(text), delivered);
    encode_utf8_valid_utf8(text);
    encode_utf8_decode_utf8(text);
}

} // verus!
