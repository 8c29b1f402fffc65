use vstd::prelude::*;
use vstd::string::StringExecFns;

verus! {

/// One value slot of the display template: a coordinate or flag, or a text.
pub enum Text {
    Integer(i64),
    String(String),
}

/// Mathematical view of a template value.
pub ghost enum TextView {
    Int(i64),
    Str(Seq<char>),
}

impl View for Text {
    type V = TextView;

    open spec fn view(&self) -> TextView {
        match self {
            Text::Integer(i) => TextView::Int(*i),
            Text::String(s) => TextView::Str(s@),
        }
    }
}

/// One element of the display template: either a `text` line or a `textbox`,
/// never both.
pub struct JsonTemplate {
    pub text: Option<Vec<Text>>,
    pub textbox: Option<Vec<Text>>,
}

/// Mathematical view of a template element.
pub ghost struct JsonTemplateView {
    pub text: Option<Seq<TextView>>,
    pub textbox: Option<Seq<TextView>>,
}

impl View for JsonTemplate {
    type V = JsonTemplateView;

    open spec fn view(&self) -> JsonTemplateView {
        JsonTemplateView {
            text: match self.text {
                Some(v) => Some(v@.map_values(|t: Text| t@)),
                None => None,
            },
            textbox: match self.textbox {
                Some(v) => Some(v@.map_values(|t: Text| t@)),
                None => None,
            },
        }
    }
}

/// The digit character writing a value below ten.
pub open spec fn spec_digit_char(d: nat) -> char {
    if d == 0 { '0' }
    else if d == 1 { '1' }
    else if d == 2 { '2' }
    else if d == 3 { '3' }
    else if d == 4 { '4' }
    else if d == 5 { '5' }
    else if d == 6 { '6' }
    else if d == 7 { '7' }
    else if d == 8 { '8' }
    else { '9' }
}

/// The decimal writing of a number, most significant digit first, with no
/// leading zeros (zero itself is written "0").
pub open spec fn spec_decimal(n: nat) -> Seq<char>
    decreases n,
{
    if n < 10 {
        seq![spec_digit_char(n)]
    } else {
        spec_decimal(n / 10) + seq![spec_digit_char(n % 10)]
    }
}

fn digit_char(d: u8) -> (c: char)
    requires
        d < 10,
    ensures
        c == spec_digit_char(d as nat),
{
    match d {
        0 => '0',
        1 => '1',
        2 => '2',
        3 => '3',
        4 => '4',
        5 => '5',
        6 => '6',
        7 => '7',
        8 => '8',
        _ => '9',
    }
}

/// Relies on String::push: it appends exactly the one given character.
#[verifier::external_body]
fn push_char(s: &mut String, c: char)
    ensures
        final(s)@ == old(s)@ + seq![c],
{
    s.push(c);
}

/// The decimal writing of an 8-bit count.
pub fn format_u8(n: u8) -> (r: String)
    ensures
        r@ == spec_decimal(n as nat),
    decreases n,
{
    if n < 10 {
        let mut s = String::new();
        push_char(&mut s, digit_char(n));
        proof {
            assert(s@ =~= spec_decimal(n as nat));
        }
        s
    } else {
        let mut s = format_u8(n / 10);
        push_char(&mut s, digit_char(n % 10));
        s
    }
}

/// The count as displayed: the decimal writing prefixed with "n=".
pub open spec fn spec_count_text(n: u8) -> Seq<char> {
    "n="@ + spec_decimal(n as nat)
}

/// Format the count for the display, e.g. "n=5".
pub fn format_count(n: u8) -> (r: String)
    ensures
        r@ == spec_count_text(n),
{
    let mut s = String::from_str("n=");
    s.append(format_u8(n).as_str());
    s
}

/// The fixed `text` line of the template: position, the count text, the
/// font, and layout flags, in this exact order.
pub open spec fn spec_text_element(n: u8) -> Seq<TextView> {
    seq![
        TextView::Int(147),
        TextView::Int(15),
        TextView::Str(spec_count_text(n)),
        TextView::Str("fonts/Signika-SB.ttf"@),
        TextView::Int(1),
        TextView::Int(1),
        TextView::Int(30),
    ]
}

/// The fixed `textbox` element of the template: position and size, the
/// message verbatim, the font, and a layout flag, in this exact order.
pub open spec fn spec_textbox_element(msg: Seq<char>) -> Seq<TextView> {
    seq![
        TextView::Int(4),
        TextView::Int(68),
        TextView::Int(290),
        TextView::Int(50),
        TextView::Str(msg),
        TextView::Str("fonts/calibrib30.vlw"@),
        TextView::Int(1),
    ]
}

/// Build the display template for one snapshot: first the `text` element
/// with the count, then the `textbox` element with the message.
pub fn samla(n: u8, msg: String) -> (r: Vec<JsonTemplate>)
    ensures
        r@.len() == 2,
        r@[0]@.text == Some(spec_text_element(n)),
        r@[0]@.textbox is None,
        r@[1]@.text is None,
        r@[1]@.textbox == Some(spec_textbox_element(msg@)),
{
    let mut text_items: Vec<Text> = Vec::new();
    text_items.push(Text::Integer(147));
    text_items.push(Text::Integer(15));
    text_items.push(Text::String(format_count(n)));
    text_items.push(Text::String(String::from_str("fonts/Signika-SB.ttf")));
    text_items.push(Text::Integer(1));
    text_items.push(Text::Integer(1));
    text_items.push(Text::Integer(30));

    let mut box_items: Vec<Text> = Vec::new();
    box_items.push(Text::Integer(4));
    box_items.push(Text::Integer(68));
    box_items.push(Text::Integer(290));
    box_items.push(Text::Integer(50));
    box_items.push(Text::String(msg));
    box_items.push(Text::String(String::from_str("fonts/calibrib30.vlw")));
    box_items.push(Text::Integer(1));

    proof {
        assert(text_items@.map_values(|t: Text| t@) =~= spec_text_element(n));
        assert(box_items@.map_values(|t: Text| t@) =~= spec_textbox_element(msg@));
    }

    let mut r: Vec<JsonTemplate> = Vec::new();
    r.push(JsonTemplate { text: Some(text_items), textbox: None });
    r.push(JsonTemplate { textbox: Some(box_items), text: None });
    r
}

/// The lowercase hexadecimal digit writing a value below sixteen.
pub open spec fn spec_hex_char(d: nat) -> char {
    if d < 10 { spec_digit_char(d) }
    else if d == 10 { 'a' }
    else if d == 11 { 'b' }
    else if d == 12 { 'c' }
    else if d == 13 { 'd' }
    else if d == 14 { 'e' }
    else { 'f' }
}

/// How one character is written inside a JSON string: quotes and backslashes
/// get a backslash, the named control characters their short escapes, other
/// control characters a \u00xx escape, and everything else stands verbatim.
pub open spec fn spec_json_escape_char(c: char) -> Seq<char> {
    if c == '"' { seq!['\\', '"'] }
    else if c == '\\' { seq!['\\', '\\'] }
    else if (c as u32) == 8 { seq!['\\', 'b'] }
    else if (c as u32) == 9 { seq!['\\', 't'] }
    else if (c as u32) == 10 { seq!['\\', 'n'] }
    else if (c as u32) == 12 { seq!['\\', 'f'] }
    else if (c as u32) == 13 { seq!['\\', 'r'] }
    else if (c as u32) < 32 {
        seq!['\\', 'u', '0', '0', spec_hex_char(((c as u32) / 16) as nat), spec_hex_char(((c as u32) % 16) as nat)]
    } else {
        seq![c]
    }
}

/// The body of a JSON string writing the given text.
pub open spec fn spec_json_escape(s: Seq<char>) -> Seq<char>
    decreases s.len(),
{
    if s.len() == 0 {
        Seq::empty()
    } else {
        spec_json_escape(s.drop_last()) + spec_json_escape_char(s.last())
    }
}

/// A JSON string writing the given text, quotes included.
pub open spec fn spec_json_string(s: Seq<char>) -> Seq<char> {
    seq!['"'] + spec_json_escape(s) + seq!['"']
}

/// Writing one more character appends exactly its escape.
proof fn lemma_json_escape_step(s: Seq<char>, i: int)
    requires
        0 <= i < s.len(),
    ensures
        spec_json_escape(s.take(i + 1)) == spec_json_escape(s.take(i)) + spec_json_escape_char(s[i]),
{
    assert(s.take(i + 1).drop_last() =~= s.take(i));
    assert(s.take(i + 1).last() == s[i]);
}

fn hex_char(d: u32) -> (c: char)
    requires
        d < 16,
    ensures
        c == spec_hex_char(d as nat),
{
    match d {
        10 => 'a',
        11 => 'b',
        12 => 'c',
        13 => 'd',
        14 => 'e',
        15 => 'f',
        _ => digit_char(d as u8),
    }
}

fn write_escaped_char(out: &mut String, c: char)
    ensures
        final(out)@ == old(out)@ + spec_json_escape_char(c),
{
    if c == '"' {
        push_char(out, '\\');
        push_char(out, '"');
        proof {
            assert(out@ =~= old(out)@ + spec_json_escape_char(c));
        }
    } else if c == '\\' {
        push_char(out, '\\');
        push_char(out, '\\');
        proof {
            assert(out@ =~= old(out)@ + spec_json_escape_char(c));
        }
    } else {
        let u = c as u32;
        if u == 8 || u == 9 || u == 10 || u == 12 || u == 13 {
            push_char(out, '\\');
            let short = if u == 8 { 'b' }
                else if u == 9 { 't' }
                else if u == 10 { 'n' }
                else if u == 12 { 'f' }
                else { 'r' };
            push_char(out, short);
            proof {
                assert(out@ =~= old(out)@ + spec_json_escape_char(c));
            }
        } else if u < 32 {
            push_char(out, '\\');
            push_char(out, 'u');
            push_char(out, '0');
            push_char(out, '0');
            push_char(out, hex_char(u / 16));
            push_char(out, hex_char(u % 16));
            proof {
                assert(out@ =~= old(out)@ + spec_json_escape_char(c));
            }
        } else {
            push_char(out, c);
            proof {
                assert(out@ =~= old(out)@ + spec_json_escape_char(c));
            }
        }
    }
}

/// Append the JSON string writing the given text, quotes included.
fn write_json_string(out: &mut String, s: &str)
    ensures
        final(out)@ == old(out)@ + spec_json_string(s@),
{
    push_char(out, '"');
    let len = s.unicode_len();
    let mut i: usize = 0;
    while i < len
        invariant
            len == s@.len(),
            0 <= i <= len,
            out@ == old(out)@ + seq!['"'] + spec_json_escape(s@.take(i as int)),
        decreases len - i,
    {
        proof {
            lemma_json_escape_step(s@, i as int);
        }
        write_escaped_char(out, s.get_char(i));
        proof {
            assert(out@ =~= old(out)@ + seq!['"'] + spec_json_escape(s@.take(i + 1)));
        }
        i += 1;
    }
    push_char(out, '"');
    proof {
        assert(s@.take(len as int) =~= s@);
        assert(out@ =~= old(out)@ + spec_json_string(s@));
    }
}

/// The full response body for one snapshot: the fixed layout of the two
/// template elements, with the count text and the message as JSON strings.
pub open spec fn spec_render(n: u8, msg: Seq<char>) -> Seq<char> {
    "[{\"text\":[147,15,"@
    + spec_json_string(spec_count_text(n))
    + ",\"fonts/Signika-SB.ttf\",1,1,30]},{\"textbox\":[4,68,290,50,"@
    + spec_json_string(msg)
    + ",\"fonts/calibrib30.vlw\",1]}]"@
}

/// Render one snapshot as the display's JSON body, byte for byte.
pub fn render_template_json(n: u8, msg: &str) -> (r: String)
    ensures
        r@ == spec_render(n, msg@),
{
    let mut out = String::from_str("[{\"text\":[147,15,");
    write_json_string(&mut out, format_count(n).as_str());
    out.append(",\"fonts/Signika-SB.ttf\",1,1,30]},{\"textbox\":[4,68,290,50,");
    write_json_string(&mut out, msg);
    out.append(",\"fonts/calibrib30.vlw\",1]}]");
    proof {
        assert(out@ =~= spec_render(n, msg@));
    }
    out
}

} // verus!
