//! The page in which inspection data is shown in a browser.

use crate::text::{
    lemma_replaced_by_itself, lemma_replaced_without_match, occurs_at, replace, replaced,
};
use vstd::prelude::*;
use vstd::string::{StringExecFns, StringSliceAdditionalSpecFns};

verus! {

/// The empty element of a page template that stands where the data goes.
pub open spec fn data_slot() -> Seq<char> {
    "<script id=\"__PEEL_DATA__\" type=\"application/json\"></script>"@
}

/// The element that holds `data`.
pub open spec fn data_element(data: Seq<char>) -> Seq<char> {
    "<script id=\"__PEEL_DATA__\" type=\"application/json\">"@ + data + "</script>"@
}

/// The tag that ends a script element.
pub open spec fn closing_tag() -> Seq<char> {
    "</script>"@
}

/// Data made safe to stand inside a script element: every closing script tag
/// in it is broken up by a backslash.
pub open spec fn escaped(json: Seq<char>) -> Seq<char> {
    replaced(json, closing_tag(), "<\\/script>"@)
}

/// The page made of a template and JSON data: each data slot of the template
/// holds the data, made safe so that it does not end the element early.
pub open spec fn report_page(template: Seq<char>, json: Seq<char>) -> Seq<char> {
    replaced(template, data_slot(), data_element(escaped(json)))
}

/// Where escaped data begins like the closing tag does from its place `from`
/// on, a place after the tag's first character, the data did so before it
/// was escaped.
proof fn lemma_escaped_prefix(data: Seq<char>, from: int, len: int)
    requires
        1 <= from,
        0 <= len,
        from + len <= 9,
        escaped(data).len() >= len,
        escaped(data).take(len) == closing_tag().subrange(from, from + len),
    ensures
        data.len() >= len,
        data.take(len) == closing_tag().subrange(from, from + len),
    decreases len,
{
    reveal_strlit("</script>");
    reveal_strlit("<\\/script>");
    let tag = closing_tag();
    if len == 0 {
        assert(data.take(0) =~= tag.subrange(from, from));
    } else if data.len() >= 9 {
        assert(escaped(data).take(len)[0] == tag[from]);
        if data.take(9) == tag {
            assert(escaped(data)[0] == '<');
        } else {
            let rest = escaped(data.skip(1));
            assert(escaped(data) == seq![data[0]] + rest);
            assert(rest.take(len - 1) =~= tag.subrange(from + 1, from + len)) by {
                assert forall|i: int| 0 <= i < len - 1 implies #[trigger] rest.take(len - 1)[i]
                    == tag.subrange(from + 1, from + len)[i] by {
                    assert(escaped(data).take(len)[i + 1] == tag.subrange(from, from + len)[i
                        + 1]);
                }
            }
            lemma_escaped_prefix(data.skip(1), from + 1, len - 1);
            assert(data.take(len) =~= tag.subrange(from, from + len)) by {
                assert forall|i: int| 0 <= i < len implies #[trigger] data.take(len)[i]
                    == tag.subrange(from, from + len)[i] by {
                    if i > 0 {
                        assert(data.skip(1).take(len - 1)[i - 1] == tag.subrange(
                            from + 1,
                            from + len,
                        )[i - 1]);
                    }
                }
            }
        }
    }
}

/// The closing tag stands nowhere in escaped data.
proof fn lemma_no_closing_tag_at(json: Seq<char>, at: int)
    ensures
        !occurs_at(escaped(json), closing_tag(), at),
    decreases json.len(),
{
    reveal_strlit("</script>");
    reveal_strlit("<\\/script>");
    let tag = closing_tag();
    let safe = escaped(json);
    if json.len() >= 9 && occurs_at(safe, tag, at) {
        let found = safe.subrange(at, at + 9);
        assert(found[0] == '<' && found[1] == '/');
        if json.take(9) == tag {
            let rest = escaped(json.skip(9));
            assert(safe == "<\\/script>"@ + rest);
            if at >= 10 {
                assert(rest.subrange(at - 10, at - 10 + 9) =~= found);
                lemma_no_closing_tag_at(json.skip(9), at - 10);
            } else if at == 0 {
                assert(safe[1] == '\\');
            } else {
                assert(safe[at] == "<\\/script>"@[at]);
            }
        } else {
            let rest = escaped(json.skip(1));
            assert(safe == seq![json[0]] + rest);
            if at >= 1 {
                assert(rest.subrange(at - 1, at - 1 + 9) =~= found);
                lemma_no_closing_tag_at(json.skip(1), at - 1);
            } else {
                assert(rest.take(8) =~= tag.subrange(1, 9)) by {
                    assert forall|i: int| 0 <= i < 8 implies #[trigger] rest.take(8)[i]
                        == tag.subrange(1, 9)[i] by {
                        assert(found[i + 1] == tag[i + 1]);
                    }
                }
                lemma_escaped_prefix(json.skip(1), 1, 8);
                assert(json.take(9) =~= tag) by {
                    assert forall|i: int| 0 <= i < 9 implies #[trigger] json.take(9)[i]
                        == tag[i] by {
                        if i > 0 {
                            assert(json.skip(1).take(8)[i - 1] == tag.subrange(1, 9)[i - 1]);
                        } else {
                            assert(found[0] == json[0]);
                        }
                    }
                }
            }
        }
    }
}

/// Escaped data holds no closing script tag: put into a script element, it
/// cannot end the element early.
pub proof fn lemma_escaped_holds_no_closing_tag(json: Seq<char>)
    ensures
        forall|at: int| !occurs_at(escaped(json), closing_tag(), at),
{
    assert forall|at: int| !occurs_at(escaped(json), closing_tag(), at) by {
        lemma_no_closing_tag_at(json, at);
    }
}

/// The element that holds no data is the data slot itself.
pub proof fn lemma_empty_element_is_the_slot()
    ensures
        data_element(Seq::empty()) == data_slot(),
{
    reveal_strlit("<script id=\"__PEEL_DATA__\" type=\"application/json\"></script>");
    reveal_strlit("<script id=\"__PEEL_DATA__\" type=\"application/json\">");
    reveal_strlit("</script>");
    assert(data_element(Seq::empty()) =~= data_slot());
}

/// With no data at all, the page is the template as it is.
pub proof fn lemma_empty_data_leaves_the_template(template: Seq<char>)
    ensures
        report_page(template, Seq::empty()) == template,
{
    lemma_empty_element_is_the_slot();
    lemma_replaced_by_itself(template, data_slot());
}

/// A template without a data slot stays as it is, whatever the data.
pub proof fn lemma_template_without_slot(template: Seq<char>, json: Seq<char>)
    requires
        forall|at: int| !occurs_at(template, data_slot(), at),
    ensures
        report_page(template, json) == template,
{
    lemma_replaced_without_match(
        template,
        data_slot(),
        data_element(escaped(json)),
    );
}

/// Data without a closing script tag goes into the page as it is.
pub proof fn lemma_harmless_data_is_kept(template: Seq<char>, json: Seq<char>)
    requires
        forall|at: int| !occurs_at(json, closing_tag(), at),
    ensures
        escaped(json) == json,
        report_page(template, json) == replaced(template, data_slot(), data_element(json)),
{
    lemma_replaced_without_match(json, closing_tag(), "<\\/script>"@);
}

/// The element that holds `data`. The data must not hold a closing script
/// tag as it comes in: `build_report` sees to that.
pub fn wrap_data(data: &str) -> (element: String)
    ensures
        element@ == data_element(data@),
{
    let mut element = "<script id=\"__PEEL_DATA__\" type=\"application/json\">".to_owned();
    element.append(data);
    element.append("</script>");
    element
}

/// Puts JSON data into the data slot of a page template.
pub fn build_report(template: &str, json: &str) -> (page: String)
    ensures
        page@ == report_page(template@, json@),
{
    proof {
        reveal_strlit("</script>");
        reveal_strlit("<script id=\"__PEEL_DATA__\" type=\"application/json\"></script>");
    }
    let safe_json = replace(json, "</script>", "<\\/script>");
    let element = wrap_data(safe_json.as_str());
    replace(
        template,
        "<script id=\"__PEEL_DATA__\" type=\"application/json\"></script>",
        element.as_str(),
    )
}

/// The text of one decimal digit.
pub open spec fn digit_text(d: nat) -> Seq<char> {
    if d == 0 {
        "0"@
    } else if d == 1 {
        "1"@
    } else if d == 2 {
        "2"@
    } else if d == 3 {
        "3"@
    } else if d == 4 {
        "4"@
    } else if d == 5 {
        "5"@
    } else if d == 6 {
        "6"@
    } else if d == 7 {
        "7"@
    } else if d == 8 {
        "8"@
    } else {
        "9"@
    }
}

/// A number written in decimal digits, without leading zeros.
pub open spec fn decimal(n: nat) -> Seq<char>
    decreases n,
{
    if n < 10 {
        digit_text(n)
    } else {
        decimal(n / 10) + digit_text(n % 10)
    }
}

/// The text of one decimal digit.
fn digit(d: usize) -> (text: &'static str)
    requires
        d < 10,
    ensures
        text@ == digit_text(d as nat),
{
    if d == 0 {
        "0"
    } else if d == 1 {
        "1"
    } else if d == 2 {
        "2"
    } else if d == 3 {
        "3"
    } else if d == 4 {
        "4"
    } else if d == 5 {
        "5"
    } else if d == 6 {
        "6"
    } else if d == 7 {
        "7"
    } else if d == 8 {
        "8"
    } else {
        "9"
    }
}

/// Writes a number in decimal digits.
pub fn to_decimal(n: usize) -> (text: String)
    ensures
        text@ == decimal(n as nat),
    decreases n,
{
    if n < 10 {
        digit(n).to_owned()
    } else {
        let mut text = to_decimal(n / 10);
        text.append(digit(n % 10));
        text
    }
}

/// The answer that serves a page over HTTP: the status line, the headers
/// with the length of the page in bytes, an empty line, and the page.
pub open spec fn response_for(html: &str) -> Seq<char> {
    "HTTP/1.1 200 OK\r\nContent-Type: text/html; charset=utf-8\r\nContent-Length: "@ + decimal(
        html.spec_bytes().len(),
    ) + "\r\nConnection: close\r\n\r\n"@ + html@
}

/// The answer that serves a page over HTTP.
pub fn response(html: &str) -> (answer: String)
    ensures
        answer@ == response_for(html),
{
    let mut answer =
        "HTTP/1.1 200 OK\r\nContent-Type: text/html; charset=utf-8\r\nContent-Length: ".to_owned();
    let length = to_decimal(html.as_bytes().len());
    answer.append(length.as_str());
    answer.append("\r\nConnection: close\r\n\r\n");
    answer.append(html);
    answer
}

} // verus!
