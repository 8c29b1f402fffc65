use samla_bridge::state::SharedData;
use samla_bridge::subscribe::apply_publish;
use samla_bridge::template::{format_count, format_u8, render_template_json, samla, JsonTemplate, Text};

fn assert_int(item: &Text, expected: i64) {
    assert!(matches!(item, Text::Integer(i) if *i == expected));
}

fn assert_str(item: &Text, expected: &str) {
    assert!(matches!(item, Text::String(s) if s == expected));
}

#[test]
fn format_u8_writes_plain_decimals() {
    assert_eq!(format_u8(0), "0");
    assert_eq!(format_u8(7), "7");
    assert_eq!(format_u8(10), "10");
    assert_eq!(format_u8(42), "42");
    assert_eq!(format_u8(100), "100");
    assert_eq!(format_u8(255), "255");
}

#[test]
fn format_count_prefixes_n() {
    assert_eq!(format_count(0), "n=0");
    assert_eq!(format_count(5), "n=5");
    assert_eq!(format_count(255), "n=255");
}

#[test]
fn samla_builds_the_fixed_layout() {
    let t: Vec<JsonTemplate> = samla(5, "Door open".to_string());
    assert_eq!(t.len(), 2);

    let text = t[0].text.as_ref().expect("first element carries text");
    assert!(t[0].textbox.is_none());
    assert_eq!(text.len(), 7);
    assert_int(&text[0], 147);
    assert_int(&text[1], 15);
    assert_str(&text[2], "n=5");
    assert_str(&text[3], "fonts/Signika-SB.ttf");
    assert_int(&text[4], 1);
    assert_int(&text[5], 1);
    assert_int(&text[6], 30);

    let textbox = t[1].textbox.as_ref().expect("second element carries textbox");
    assert!(t[1].text.is_none());
    assert_eq!(textbox.len(), 7);
    assert_int(&textbox[0], 4);
    assert_int(&textbox[1], 68);
    assert_int(&textbox[2], 290);
    assert_int(&textbox[3], 50);
    assert_str(&textbox[4], "Door open");
    assert_str(&textbox[5], "fonts/calibrib30.vlw");
    assert_int(&textbox[6], 1);
}

#[test]
fn render_with_defaults() {
    let body = render_template_json(0, "");
    assert_eq!(
        body,
        "[{\"text\":[147,15,\"n=0\",\"fonts/Signika-SB.ttf\",1,1,30]},\
         {\"textbox\":[4,68,290,50,\"\",\"fonts/calibrib30.vlw\",1]}]"
    );
}

#[test]
fn render_after_two_messages() {
    let mut s = SharedData::new();
    apply_publish(&mut s, "revspace/doorduino/checked-in", b"5");
    apply_publish(&mut s, "revspace/sting/samla", b"Door open");
    let snap = s.snapshot();
    let body = render_template_json(snap.n, &snap.msg);
    assert_eq!(
        body,
        "[{\"text\":[147,15,\"n=5\",\"fonts/Signika-SB.ttf\",1,1,30]},\
         {\"textbox\":[4,68,290,50,\"Door open\",\"fonts/calibrib30.vlw\",1]}]"
    );
}

#[test]
fn render_escapes_special_characters() {
    let body = render_template_json(1, "a\"b\\c\nd");
    assert_eq!(
        body,
        "[{\"text\":[147,15,\"n=1\",\"fonts/Signika-SB.ttf\",1,1,30]},\
         {\"textbox\":[4,68,290,50,\"a\\\"b\\\\c\\nd\",\"fonts/calibrib30.vlw\",1]}]"
    );
}

#[test]
fn render_escapes_control_characters() {
    let body = render_template_json(2, "x\u{1}y\t\r\u{8}\u{c}\u{1f}");
    assert_eq!(
        body,
        "[{\"text\":[147,15,\"n=2\",\"fonts/Signika-SB.ttf\",1,1,30]},\
         {\"textbox\":[4,68,290,50,\"x\\u0001y\\t\\r\\b\\f\\u001f\",\"fonts/calibrib30.vlw\",1]}]"
    );
}

#[test]
fn render_keeps_unicode_text_verbatim() {
    let body = render_template_json(3, "d\u{f6}rr \u{f6}ppen");
    assert!(body.contains("\"d\u{f6}rr \u{f6}ppen\""));
}
