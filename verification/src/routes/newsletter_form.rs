//! The page with the form for publishing a newsletter issue.

use vstd::prelude::*;

verus! {

/// The page up to the flash messages.
pub const NEWSLETTER_FORM_HEAD: &'static str = "
        <!DOCTYPE html>
        <html lang=\"en\">
        <head>
            <meta http-equiv=\"content-type\" content=\"text/html; charset=utf-8\">
            <title>Publish Newsletters Issue</title>
        </head>
        <body>
            ";

/// The page after the flash messages.
pub const NEWSLETTER_FORM_TAIL: &'static str = "
            <form action=\"/admin/newsletters\" method=\"post\">
                <label>Title
                <input
                    type=\"text\"
                    placeholder=\"Enter the title\"
                    name=\"title\"
                />
                </label>
                <br>
                <label>
                Plain text content:
                <br>
                <textarea
                    placeholder=\"Enter the content in HTML text.\"
                    name=\"text_content\"
                    rows=\"20\"
                    cols=\"50\"
                ></textarea>
                </label>
                <br>
                <label>
                Plain text content:
                <br>
                <textarea
                    placeholder=\"Enter the content in HTML text.\"
                    name=\"html_content\"
                    rows=\"20\"
                    cols=\"50\"
                ></textarea>
                </label>
                <button type=\"submit\">Pubish</button>
            </form>
            <p><a href=\"/admin/dashboard\">&lt;- Back</a></p>
        </body>
        </html>
        ";

/// The flash messages as HTML: each one a paragraph in italics, on a line of its own.
pub open spec fn flash_paragraphs(messages: Seq<Seq<char>>) -> Seq<char>
    decreases messages.len(),
{
    if messages.len() == 0 {
        Seq::empty()
    } else {
        flash_paragraphs(messages.drop_last()) + "<p><i>"@ + messages.last() + "</i></p>\n"@
    }
}

/// `page` holds the message `m` whole, as a paragraph in italics on a line of its own.
pub open spec fn shows_whole(page: Seq<char>, m: Seq<char>) -> bool {
    exists|k: int|
        0 <= k && k + ("<p><i>"@ + m + "</i></p>\n"@).len() <= page.len() && #[trigger] page.subrange(
            k,
            k + ("<p><i>"@ + m + "</i></p>\n"@).len(),
        ) == "<p><i>"@ + m + "</i></p>\n"@
}

/// The texts of a list of strings.
pub open spec fn texts(strings: Seq<String>) -> Seq<Seq<char>> {
    strings.map_values(|m: String| m@)
}

/// The whole page: the form, with the flash messages above it.
pub open spec fn newsletter_form_page(messages: Seq<Seq<char>>) -> Seq<char> {
    NEWSLETTER_FORM_HEAD@ + flash_paragraphs(messages) + NEWSLETTER_FORM_TAIL@
}

/// The HTML of the newsletter form, showing the given flash messages (as they are, in
/// order) above the form.
pub fn newsletter_form_html(flash_messages: &Vec<String>) -> (r: String)
    ensures
        r@ == newsletter_form_page(texts(flash_messages@)),
        r@.take(NEWSLETTER_FORM_HEAD@.len() as int) == NEWSLETTER_FORM_HEAD@,
        forall|i: int|
            0 <= i < flash_messages@.len() ==> shows_whole(r@, (#[trigger] flash_messages@[i])@)
{
    let ghost messages = texts(flash_messages@);
    let mut message_html = String::new();
    let n = flash_messages.len();
    let mut i: usize = 0;
    while i < n
        invariant
            n == flash_messages@.len(),
            messages == texts(flash_messages@),
            i <= n,
            message_html@ == flash_paragraphs(messages.take(i as int)),
        decreases n - i,
    {
        message_html.append("<p><i>");
        message_html.append(flash_messages[i].as_str());
        message_html.append("</i></p>\n");
        assert(messages.take(i + 1).drop_last() =~= messages.take(i as int));
        i = i + 1;
    }
    assert(messages.take(n as int) =~= messages);
    let mut page = String::from_str(NEWSLETTER_FORM_HEAD);
    page.append(message_html.as_str());
    page.append(NEWSLETTER_FORM_TAIL);
    proof {
        assert(page@.take(NEWSLETTER_FORM_HEAD@.len() as int) =~= NEWSLETTER_FORM_HEAD@);
        assert forall|i: int| 0 <= i < flash_messages@.len() implies shows_whole(
            page@,
            (#[trigger] flash_messages@[i])@,
        ) by {
            assert(messages[i] == flash_messages@[i]@);
            lemma_page_shows_each_message(messages, i);
        }
    }
    page
}

/// The flash messages of two lists, one after the other, are the flash messages of the
/// first list followed by those of the second.
pub proof fn lemma_flash_paragraphs_concat(a: Seq<Seq<char>>, b: Seq<Seq<char>>)
    ensures
        flash_paragraphs(a + b) == flash_paragraphs(a) + flash_paragraphs(b),
    decreases b.len(),
{
    if b.len() == 0 {
        assert(a + b =~= a);
        assert(flash_paragraphs(a) + flash_paragraphs(b) =~= flash_paragraphs(a));
    } else {
        lemma_flash_paragraphs_concat(a, b.drop_last());
        assert((a + b).drop_last() =~= a + b.drop_last());
        assert((a + b).last() == b.last());
        assert(flash_paragraphs(a + b) =~= flash_paragraphs(a) + flash_paragraphs(b));
    }
}

/// One flash message is shown whole, as a paragraph in italics on a line of its own.
pub proof fn lemma_single_flash_paragraph(m: Seq<char>)
    ensures
        flash_paragraphs(seq![m]) == "<p><i>"@ + m + "</i></p>\n"@,
{
    assert(seq![m].drop_last() =~= Seq::<Seq<char>>::empty());
    assert(flash_paragraphs(Seq::<Seq<char>>::empty()) + "<p><i>"@ + m + "</i></p>\n"@ =~= "<p><i>"@ + m
        + "</i></p>\n"@);
}

/// Every flash message appears whole on the page, as a paragraph in italics on a line
/// of its own, after the head of the page.
pub proof fn lemma_page_shows_each_message(messages: Seq<Seq<char>>, i: int)
    requires
        0 <= i < messages.len(),
    ensures
        shows_whole(newsletter_form_page(messages).skip(NEWSLETTER_FORM_HEAD@.len() as int), messages[i]),
        shows_whole(newsletter_form_page(messages), messages[i]),
{
    let before = messages.take(i);
    let after = messages.skip(i + 1);
    assert(messages =~= before + seq![messages[i]] + after);
    lemma_flash_paragraphs_concat(before + seq![messages[i]], after);
    lemma_flash_paragraphs_concat(before, seq![messages[i]]);
    lemma_single_flash_paragraph(messages[i]);
    let para = "<p><i>"@ + messages[i] + "</i></p>\n"@;
    let k: int = (NEWSLETTER_FORM_HEAD@.len() + flash_paragraphs(before).len()) as int;
    let page = newsletter_form_page(messages);
    assert(page =~= NEWSLETTER_FORM_HEAD@ + flash_paragraphs(before) + para + flash_paragraphs(after)
        + NEWSLETTER_FORM_TAIL@);
    assert(page.subrange(k, k + para.len() as int) =~= para);
    let j = k - NEWSLETTER_FORM_HEAD@.len();
    assert(page.skip(NEWSLETTER_FORM_HEAD@.len() as int).subrange(j, j + para.len() as int) =~= para);
}

} // verus!
