//! The notifier: the webhook payload that announces an upload.

use vstd::prelude::*;
use vstd::std_specs::iter::IteratorSpec;
use vstd::utf8::{decode_utf8, valid_utf8};

verus! {

/// The colour of every embed.
pub const EMBED_COLOR: u32 = 5986018;

/// One name and value pair of an embed.
#[derive(Debug, PartialEq, Eq)]
pub struct Field {
    pub name: String,
    pub value: String,
    pub inline: bool,
}

/// A `Field` as mathematical text.
pub struct FieldView {
    pub name: Seq<char>,
    pub value: Seq<char>,
    pub inline: bool,
}

impl View for Field {
    type V = FieldView;

    open spec fn view(&self) -> FieldView {
        FieldView { name: self.name@, value: self.value@, inline: self.inline }
    }
}

/// One embed of a payload: a title, a colour and a list of fields.
#[derive(Debug, PartialEq, Eq)]
pub struct Embed {
    pub title: String,
    pub color: u32,
    pub fields: Vec<Field>,
}

/// An `Embed` as mathematical text.
pub struct EmbedView {
    pub title: Seq<char>,
    pub color: u32,
    pub fields: Seq<FieldView>,
}

impl View for Embed {
    type V = EmbedView;

    open spec fn view(&self) -> EmbedView {
        EmbedView {
            title: self.title@,
            color: self.color,
            fields: self.fields@.map_values(|f: Field| f@),
        }
    }
}

/// The body of a notification: a list of embeds.
#[derive(Debug, PartialEq, Eq)]
pub struct Payload {
    pub embeds: Vec<Embed>,
}

/// A `Payload` as mathematical text.
pub struct PayloadView {
    pub embeds: Seq<EmbedView>,
}

impl View for Payload {
    type V = PayloadView;

    open spec fn view(&self) -> PayloadView {
        PayloadView { embeds: self.embeds@.map_values(|e: Embed| e@) }
    }
}

/// The position of the first line feed of `s`, or the length of `s` where it
/// has none.
pub open spec fn first_line_feed(s: Seq<char>) -> int
    decreases s.len(),
{
    if s.len() == 0 || s[0] == '\n' {
        0
    } else {
        1 + first_line_feed(s.drop_first())
    }
}

/// `line` without one carriage return at its end.
pub open spec fn without_carriage_return(line: Seq<char>) -> Seq<char> {
    if line.len() > 0 && line.last() == '\r' {
        line.drop_last()
    } else {
        line
    }
}

/// The lines of `text`. A line ends at a line feed, and a carriage return
/// just before that line feed belongs to the line ending too. What follows
/// the last line feed is a line of its own unless it is empty, and keeps a
/// carriage return at its end.
pub open spec fn lines_of(text: Seq<char>) -> Seq<Seq<char>>
    decreases text.len(),
{
    let end = first_line_feed(text);
    if text.len() == 0 {
        Seq::empty()
    } else if 0 <= end < text.len() {
        seq![without_carriage_return(text.take(end))] + lines_of(text.skip(end + 1))
    } else {
        seq![text]
    }
}

/// A comment line begins with two slashes.
pub open spec fn is_comment(line: Seq<char>) -> bool {
    line.len() >= 2 && line[0] == '/' && line[1] == '/'
}

/// The lines that are no comments, in their order.
pub open spec fn without_comments(lines: Seq<Seq<char>>) -> Seq<Seq<char>> {
    lines.filter(|line: Seq<char>| !is_comment(line))
}

/// The field that leads every list of fields.
pub open spec fn header_field() -> FieldView {
    FieldView { name: "Mapas"@, value: Seq::empty(), inline: false }
}

/// The field that carries one line of the file.
pub open spec fn line_field(line: Seq<char>) -> FieldView {
    FieldView { name: Seq::empty(), value: line, inline: false }
}

/// The fields that announce a file with the text `text`: the header, then one
/// field for each line that is no comment, in the order of the file.
pub open spec fn fields_of(text: Seq<char>) -> Seq<FieldView> {
    seq![header_field()] + without_comments(lines_of(text)).map_values(
        |line: Seq<char>| line_field(line),
    )
}

/// The title that announces the file `file_name`.
pub open spec fn title_of(file_name: Seq<char>) -> Seq<char> {
    "Rotación: "@ + file_name
}

/// The payload that announces the file `file_name` with the text `text`: one
/// embed with the title, the fixed colour and the fields.
pub open spec fn payload_of(file_name: Seq<char>, text: Seq<char>) -> PayloadView {
    PayloadView {
        embeds: seq![
            EmbedView { title: title_of(file_name), color: EMBED_COLOR, fields: fields_of(text) },
        ],
    }
}

/// What `String::from_utf8_lossy` makes of `bytes`: their text, with the
/// replacement character in place of each malformed sequence.
pub uninterp spec fn utf8_lossy(bytes: Seq<u8>) -> Seq<char>;

/// Decodes `content` with std's `String::from_utf8_lossy`. Trusted: the result
/// is named, not defined, since the replacement of malformed sequences takes
/// pages to state; as std documents, well-formed UTF-8 is decoded unchanged.
#[verifier::external_body]
fn decode_lossy(content: &[u8]) -> (text: String)
    ensures
        text@ == utf8_lossy(content@),
        valid_utf8(content@) ==> text@ == decode_utf8(content@),
{
    String::from_utf8_lossy(content).into_owned()
}

/// Where nothing before position `k` is a line feed, and `k` is the end or
/// holds a line feed, `k` is the position of the first line feed.
proof fn lemma_first_line_feed(s: Seq<char>, k: int)
    requires
        0 <= k <= s.len(),
        forall|j: int| 0 <= j < k ==> s[j] != '\n',
        k == s.len() || s[k] == '\n',
    ensures
        first_line_feed(s) == k,
    decreases k,
{
    if k > 0 {
        lemma_first_line_feed(s.drop_first(), k - 1);
    }
}

/// `first_line_feed` is what its name says: it lies within `s`, nothing
/// before it is a line feed, and where it lies before the end it holds one.
pub proof fn first_line_feed_is_first(s: Seq<char>)
    ensures
        0 <= first_line_feed(s) <= s.len(),
        forall|j: int| 0 <= j < first_line_feed(s) ==> s[j] != '\n',
        first_line_feed(s) < s.len() ==> s[first_line_feed(s)] == '\n',
    decreases s.len(),
{
    if s.len() > 0 && s[0] != '\n' {
        let rest = s.drop_first();
        first_line_feed_is_first(rest);
        assert forall|j: int| 0 <= j < first_line_feed(s) implies s[j] != '\n' by {
            if j > 0 {
                assert(s[j] == rest[j - 1]);
            }
        }
    }
}

/// No line holds a line feed.
pub proof fn lines_hold_no_line_feed(text: Seq<char>)
    ensures
        forall|i: int, j: int|
            0 <= i < lines_of(text).len() && 0 <= j < lines_of(text)[i].len() ==> lines_of(
                text,
            )[i][j] != '\n',
    decreases text.len(),
{
    let end = first_line_feed(text);
    first_line_feed_is_first(text);
    if 0 <= end < text.len() {
        let rest = text.skip(end + 1);
        lines_hold_no_line_feed(rest);
        assert forall|i: int, j: int|
            0 <= i < lines_of(text).len() && 0 <= j < lines_of(text)[i].len() implies lines_of(
            text,
        )[i][j] != '\n' by {
            if i == 0 {
                assert(lines_of(text)[0][j] == text[j]);
            } else {
                assert(lines_of(text)[i] == lines_of(rest)[i - 1]);
            }
        }
    }
}

/// The fields that announce a file are the header and then one field for
/// each line that is no comment, in the order of the file: the field at
/// position `k + 1` carries the `k`-th such line.
pub proof fn fields_are_header_then_lines(text: Seq<char>)
    ensures
        fields_of(text).len() == 1 + without_comments(lines_of(text)).len(),
        fields_of(text)[0] == header_field(),
        forall|k: int|
            0 <= k < without_comments(lines_of(text)).len() ==> fields_of(text)[k + 1]
                == line_field(#[trigger] without_comments(lines_of(text))[k]),
        forall|k: int|
            0 <= k < without_comments(lines_of(text)).len() ==> !is_comment(
                #[trigger] without_comments(lines_of(text))[k],
            ),
        forall|i: int|
            0 <= i < lines_of(text).len() && !is_comment(#[trigger] lines_of(text)[i])
                ==> without_comments(lines_of(text)).contains(lines_of(text)[i]),
{
    let lines = lines_of(text);
    let keep = |line: Seq<char>| !is_comment(line);
    let kept = lines.filter(keep);
    assert forall|k: int| 0 <= k < kept.len() implies !is_comment(#[trigger] kept[k]) by {
        lines.lemma_filter_pred(keep, k);
    }
    assert forall|i: int|
        0 <= i < lines.len() && !is_comment(#[trigger] lines[i]) implies kept.contains(lines[i]) by {
        lines.lemma_filter_contains(keep, i);
    }
}

/// Comments are dropped line by line: a comment leaves nothing, any other
/// line stays as it is, and what is kept of two lists in a row is what is
/// kept of the first, then what is kept of the second. So every line that is
/// no comment is kept once, and the order of the lines is kept.
pub proof fn comments_are_dropped_line_by_line(
    first: Seq<Seq<char>>,
    second: Seq<Seq<char>>,
    line: Seq<char>,
)
    ensures
        without_comments(Seq::empty()) == Seq::<Seq<char>>::empty(),
        without_comments(seq![line]) == if is_comment(line) {
            Seq::<Seq<char>>::empty()
        } else {
            seq![line]
        },
        without_comments(first + second) == without_comments(first) + without_comments(second),
{
    let keep = |line: Seq<char>| !is_comment(line);
    reveal_with_fuel(Seq::filter, 2);
    Seq::filter_distributes_over_add(first, second, keep);
}

/// Splits `text` into its lines.
pub fn split_lines(text: &str) -> (lines: Vec<String>)
    ensures
        lines.deep_view() == lines_of(text@),
{
    let n = text.unicode_len();
    let mut lines: Vec<String> = Vec::new();
    let mut rest = text.chars();
    let mut start: usize = 0;
    let mut i: usize = 0;
    let mut after_carriage_return = false;
    assert(text@.skip(0) == text@);
    loop
        invariant
            n == text@.len(),
            start <= i <= n,
            rest.obeys_prophetic_iter_laws(),
            rest.remaining() == text@.skip(i as int),
            forall|j: int| start <= j < i ==> text@[j] != '\n',
            after_carriage_return <==> i > start && text@[i - 1] == '\r',
            lines.deep_view() + lines_of(text@.skip(start as int)) == lines_of(text@),
        ensures
            i == n,
            start <= n,
            forall|j: int| start <= j < n ==> text@[j] != '\n',
            lines.deep_view() + lines_of(text@.skip(start as int)) == lines_of(text@),
        decreases n - i,
    {
        let c = match rest.next() {
            Some(c) => c,
            None => {
                break ;
            },
        };
        if c == '\n' {
            let end = if after_carriage_return {
                i - 1
            } else {
                i
            };
            let line = text.substring_char(start, end).to_owned();
            proof {
                // The line feed at `i` is the first one after `start`.
                let tail = text@.skip(start as int);
                let k = i - start;
                lemma_first_line_feed(tail, k);
                assert(tail.skip(k + 1) == text@.skip(i + 1));
                assert(line@ == without_carriage_return(tail.take(k)));
            }
            lines.push(line);
            start = i + 1;
        }
        after_carriage_return = c == '\r';
        i = i + 1;
    }
    if start < n {
        let line = text.substring_char(start, n).to_owned();
        proof {
            // What follows the last line feed holds none: it is one line.
            let tail = text@.skip(start as int);
            lemma_first_line_feed(tail, tail.len() as int);
        }
        lines.push(line);
    }
    lines
}

/// Tells whether `line` is a comment.
pub fn is_comment_line(line: &str) -> (r: bool)
    ensures
        r == is_comment(line@),
{
    let mut rest = line.chars();
    match rest.next() {
        Some(first) => match rest.next() {
            Some(second) => first == '/' && second == '/',
            None => false,
        },
        None => false,
    }
}

/// Builds the payload that announces the file `file_name` whose text is
/// `text`.
pub fn payload_for_text(file_name: &str, text: &str) -> (payload: Payload)
    ensures
        payload@ == payload_of(file_name@, text@),
{
    let lines = split_lines(text);
    let mut fields: Vec<Field> = Vec::new();
    fields.push(Field { name: "Mapas".to_owned(), value: String::new(), inline: false });
    let ghost all = lines.deep_view();
    let mut i: usize = 0;
    while i < lines.len()
        invariant
            i <= lines.len(),
            all == lines.deep_view(),
            fields@.map_values(|f: Field| f@) == seq![header_field()] + without_comments(
                all.take(i as int),
            ).map_values(|line: Seq<char>| line_field(line)),
        decreases lines.len() - i,
    {
        let ghost before = fields@.map_values(|f: Field| f@);
        proof {
            broadcast use Seq::lemma_filter_push;
            assert(all.take(i + 1) == all.take(i as int).push(all[i as int]));
        }
        if !is_comment_line(lines[i].as_str()) {
            let field = Field { name: String::new(), value: lines[i].clone(), inline: false };
            fields.push(field);
            assert(fields@.map_values(|f: Field| f@) == before.push(line_field(all[i as int])));
        }
        i += 1;
    }
    assert(all.take(i as int) == all);
    let title = "Rotación: ".to_owned().concat(file_name);
    let mut embeds: Vec<Embed> = Vec::new();
    embeds.push(Embed { title, color: EMBED_COLOR, fields });
    assert(embeds@.map_values(|e: Embed| e@) == payload_of(file_name@, text@).embeds);
    Payload { embeds }
}

/// Builds the payload that announces the file `file_name` whose content is
/// `content`: the content is decoded as UTF-8, malformed sequences replaced,
/// and the payload is that of the decoded text.
pub fn build_payload(file_name: &str, content: &[u8]) -> (payload: Payload)
    ensures
        payload@ == payload_of(file_name@, utf8_lossy(content@)),
        valid_utf8(content@) ==> payload@ == payload_of(file_name@, decode_utf8(content@)),
{
    let text = decode_lossy(content);
    payload_for_text(file_name, text.as_str())
}

} // verus!
