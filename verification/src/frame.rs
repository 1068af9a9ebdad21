//! Line framing: every message that is passed on ends in a newline.
use vstd::prelude::*;
use vstd::utf8::{decode_utf8, encode_utf8, valid_utf8};

verus! {

/// The byte that ends a line.
pub const NEWLINE: u8 = 10;

/// The bytes of a message, with a newline added where they do not end in one.
pub open spec fn framed(data: Seq<u8>) -> Seq<u8> {
    if data.len() > 0 && data.last() == NEWLINE {
        data
    } else {
        data.push(NEWLINE)
    }
}

/// The characters of a message, with a newline added where they do not end in one.
pub open spec fn framed_chars(text: Seq<char>) -> Seq<char> {
    if text.len() > 0 && text.last() == '\n' {
        text
    } else {
        text.push('\n')
    }
}

/// What lossy decoding makes of bytes that are not UTF-8.
pub uninterp spec fn utf8_lossy(data: Seq<u8>) -> Seq<char>;

/// Bytes as text: UTF-8 where they are UTF-8, decoded lossily otherwise.
pub open spec fn text_of(data: Seq<u8>) -> Seq<char> {
    if valid_utf8(data) {
        decode_utf8(data)
    } else {
        utf8_lossy(data)
    }
}

/// `String::from_utf8_lossy`: bytes that are UTF-8 become the text that they encode; of
/// other bytes only that the text depends on nothing but them.
#[verifier::external_body]
fn decode_lossy(data: &[u8]) -> (text: String)
    ensures
        valid_utf8(data@) ==> text@ == decode_utf8(data@),
        !valid_utf8(data@) ==> text@ == utf8_lossy(data@),
{
    String::from_utf8_lossy(data).into_owned()
}

/// Adds the newline that a message lacks.
pub fn frame_bytes(data: Vec<u8>) -> (message: Vec<u8>)
    ensures
        message@ == framed(data@),
{
    let mut message = data;
    let n = message.len();
    if n == 0 || message[n - 1] != NEWLINE {
        message.push(NEWLINE);
    }
    message
}

/// Adds the newline that a text lacks.
pub fn frame_string(text: String) -> (message: String)
    ensures
        message@ == framed_chars(text@),
{
    let n = text.as_str().unicode_len();
    let mut message = text;
    if n == 0 || message.as_str().get_char(n - 1) != '\n' {
        proof {
            reveal_strlit("\n");
        }
        message.append("\n");
        assert(message@ =~= text@.push('\n'));
    }
    message
}

/// Reads a message as text and adds the newline that it lacks.
pub fn frame_text(data: &[u8]) -> (message: String)
    ensures
        message@ == framed_chars(text_of(data@)),
{
    frame_string(decode_lossy(data))
}

/// Framing adds one newline at most: what it makes of a message begins with the message,
/// ends in a newline, and is left alone when it is framed again.
pub proof fn framing_adds_at_most_a_newline(data: Seq<u8>)
    ensures
        data.is_prefix_of(framed(data)),
        framed(data).len() <= data.len() + 1,
        framed(data).last() == NEWLINE,
        framed(framed(data)) == framed(data),
{
}

/// A newline is added exactly where a message does not end in one; nothing else changes.
pub proof fn a_newline_is_added_where_one_is_missing(data: Seq<u8>, text: Seq<char>)
    ensures
        framed(data).len() == data.len() + if data.len() > 0 && data[data.len() - 1] == 10 {
            0int
        } else {
            1int
        },
        framed(data).take(data.len() as int) == data,
        framed(data)[framed(data).len() - 1] == 10,
        framed_chars(text).len() == text.len() + if text.len() > 0 && text[text.len() - 1] == '\n' {
            0int
        } else {
            1int
        },
        framed_chars(text).take(text.len() as int) == text,
        framed_chars(text)[framed_chars(text).len() - 1] == '\n',
{
    assert(framed(data).take(data.len() as int) =~= data);
    assert(framed_chars(text).take(text.len() as int) =~= text);
}

/// Bytes that are text are read as that text; other bytes as lossy decoding has them.
pub proof fn bytes_are_read_as_text(data: Seq<u8>)
    ensures
        valid_utf8(data) ==> encode_utf8(text_of(data)) == data,
        !valid_utf8(data) ==> text_of(data) == utf8_lossy(data),
{
    if valid_utf8(data) {
        vstd::utf8::decode_utf8_encode_utf8(data);
    }
}

/// The messages of many writers, as they follow each other on the way out.
pub open spec fn stream(messages: Seq<Seq<u8>>) -> Seq<u8>
    decreases messages.len(),
{
    if messages.len() == 0 {
        Seq::empty()
    } else {
        stream(messages.drop_last()) + framed(messages.last())
    }
}

/// What stands between the newlines of a stream; the last piece is what follows them all.
pub open spec fn cut(stream: Seq<u8>) -> Seq<Seq<u8>>
    decreases stream.len(),
{
    if stream.len() == 0 {
        seq![Seq::empty()]
    } else {
        let before = cut(stream.drop_last());
        if stream.last() == NEWLINE {
            before.push(Seq::empty())
        } else {
            before.drop_last().push(before.last().push(stream.last()))
        }
    }
}

/// A message that holds no newline.
pub open spec fn is_one_line(message: Seq<u8>) -> bool {
    forall|i: int| 0 <= i < message.len() ==> message[i] != NEWLINE
}

proof fn cut_goes_on(before: Seq<u8>, line: Seq<u8>)
    requires
        is_one_line(line),
    ensures
        cut(before).len() > 0,
        cut(before + line) == cut(before).drop_last().push(cut(before).last() + line),
    decreases before.len() + line.len(),
{
    if line.len() == 0 {
        assert(before + line =~= before);
        if before.len() > 0 {
            cut_goes_on(before.drop_last(), line);
        }
        assert(cut(before).last() + line =~= cut(before).last());
        assert(cut(before + line) =~= cut(before).drop_last().push(cut(before).last() + line));
    } else {
        let shorter = line.drop_last();
        assert forall|i: int| 0 <= i < shorter.len() implies shorter[i] != NEWLINE by {
            assert(shorter[i] == line[i]);
        }
        cut_goes_on(before, shorter);
        assert((before + line).drop_last() =~= before + shorter);
        assert(line.last() == line[line.len() - 1]);
        assert((cut(before).last() + shorter).push(line.last()) =~= cut(before).last() + line);
        assert(cut(before + line) =~= cut(before).drop_last().push(cut(before).last() + line));
    }
}

/// Messages of one line each come out as one line each, whoever wrote them and whether or
/// not they ended in a newline: the lines of the stream are the messages, and nothing is
/// left over.
pub proof fn one_line_messages_stay_apart(messages: Seq<Seq<u8>>)
    requires
        forall|i: int| 0 <= i < messages.len() ==> is_one_line(#[trigger] messages[i]),
    ensures
        cut(stream(messages)) == messages.push(Seq::empty()),
    decreases messages.len(),
{
    if messages.len() == 0 {
        assert(cut(stream(messages)) =~= messages.push(Seq::empty()));
    } else {
        let earlier = messages.drop_last();
        assert forall|i: int| 0 <= i < earlier.len() implies is_one_line(#[trigger] earlier[i]) by {
            assert(earlier[i] == messages[i]);
        }
        one_line_messages_stay_apart(earlier);
        let line = messages.last();
        assert(is_one_line(messages[messages.len() - 1]));
        assert(framed(line) == line.push(NEWLINE));
        cut_goes_on(stream(earlier), line);
        assert(stream(messages).drop_last() =~= stream(earlier) + line);
        assert(Seq::<u8>::empty() + line =~= line);
        assert(cut(stream(messages)) =~= messages.push(Seq::empty()));
    }
}

/// A message that is written as text is read as that text, framed.
pub proof fn text_is_read_as_it_was_written(message: Seq<char>)
    ensures
        framed_chars(text_of(encode_utf8(message))) == framed_chars(message),
{
    vstd::utf8::encode_utf8_valid_utf8(message);
    vstd::utf8::encode_utf8_decode_utf8(message);
}

proof fn encoding_of_one_more(text: Seq<char>, c: char)
    ensures
        encode_utf8(text.push(c)) == encode_utf8(text) + vstd::utf8::encode_scalar(c as u32),
    decreases text.len(),
{
    if text.len() == 0 {
        let rest = text.push(c).drop_first();
        assert(rest.len() == 0);
        assert(encode_utf8(rest) =~= Seq::empty());
        assert(encode_utf8(text.push(c)) =~= encode_utf8(text) + vstd::utf8::encode_scalar(
            c as u32,
        ));
    } else {
        encoding_of_one_more(text.drop_first(), c);
        assert(text.push(c).drop_first() =~= text.drop_first().push(c));
        assert(encode_utf8(text.push(c)) =~= encode_utf8(text) + vstd::utf8::encode_scalar(
            c as u32,
        ));
    }
}

proof fn last_byte_of_a_char(c: char)
    ensures
        vstd::utf8::encode_scalar(c as u32).len() > 0,
        vstd::utf8::encode_scalar(c as u32).last() == NEWLINE <==> c == '\n',
        vstd::utf8::encode_scalar('\n' as u32) == seq![NEWLINE],
{
    let v = c as u32;
    assert(0x80u8 | (v & 0x3F) as u8 >= 0x80) by (bit_vector);
    assert(v <= 0x7F ==> (v & 0x7F) as u8 == v) by (bit_vector);
    assert(10u32 & 0x7F == 10) by (bit_vector);
    assert(vstd::utf8::encode_scalar('\n' as u32) =~= seq![NEWLINE]);
}

/// Framing a message as bytes and framing it as text is the same thing, where the message
/// is text.
pub proof fn framing_bytes_and_text_agree(data: Seq<u8>)
    requires
        valid_utf8(data),
    ensures
        encode_utf8(framed_chars(text_of(data))) == framed(data),
{
    let text = decode_utf8(data);
    vstd::utf8::decode_utf8_encode_utf8(data);
    last_byte_of_a_char('\n');
    if text.len() == 0 {
        assert(data =~= Seq::empty());
    } else {
        assert(text.drop_last().push(text.last()) =~= text);
        encoding_of_one_more(text.drop_last(), text.last());
        last_byte_of_a_char(text.last());
        assert(data.last() == vstd::utf8::encode_scalar(text.last() as u32).last());
    }
    encoding_of_one_more(text, '\n');
    assert(encode_utf8(framed_chars(text)) =~= framed(data));
}

} // verus!
