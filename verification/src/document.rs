//! Putting a document together: the banner with the title, one section for
//! each text block of the article, and the footer with the direct link.

use vstd::prelude::*;
use scraper::{Html, Selector};
use crate::line::{Line, LineView, StyleTag, lines_view, plain, style_of};
use crate::text::{
    decimal_digits, lines_of, push_decimal, push_repeated, repeated, split_lines, texts_of,
};
use crate::width::{display_width, str_width};

verus! {

/// The columns between the two sides of a box.
pub const BOX_INNER_WIDTH: usize = 78;

/// The columns of a rule.
pub const RULE_WIDTH: usize = 80;

/// The longest page, in bytes, that is taken apart. The parser grows the
/// buffer of a text to the next power of two, which has to fit a `u32` and,
/// with the buffer's header, the largest allocation of a machine whose
/// addresses have 32 bits; so a text may hold up to 2^30 bytes. It writes
/// three bytes for some single bytes of the page, so a third of that is the
/// limit.
pub const MAX_PAGE_BYTES: usize = 0x1555_5555;

/// The address of an article.
pub open spec fn article_url(issue: Seq<char>, article: Seq<char>) -> Seq<char> {
    "https://phrack.org/issues/"@ + issue + "/"@ + article
}

/// The upper side of a box.
pub open spec fn box_top() -> Seq<char> {
    seq!['╔'] + repeated('═', BOX_INNER_WIDTH as nat) + seq!['╗']
}

/// The lower side of a box.
pub open spec fn box_bottom() -> Seq<char> {
    seq!['╚'] + repeated('═', BOX_INNER_WIDTH as nat) + seq!['╝']
}

/// The blanks to the left of a text of `width` columns that is centered in a
/// box: half of the free columns, rounded down; none where the text is wider
/// than the box.
pub open spec fn left_padding(width: nat) -> nat {
    if width <= BOX_INNER_WIDTH {
        ((BOX_INNER_WIDTH - width) / 2) as nat
    } else {
        0
    }
}

/// The blanks to the right of a centered text: the free columns that the
/// left padding leaves.
pub open spec fn right_padding(width: nat) -> nat {
    if width <= BOX_INNER_WIDTH {
        (BOX_INNER_WIDTH - width - left_padding(width)) as nat
    } else {
        0
    }
}

/// The row of a box that holds `text`, centered as a text of `width`
/// columns.
pub open spec fn centered(text: Seq<char>, width: nat) -> Seq<char> {
    seq!['║'] + repeated(' ', left_padding(width)) + text + repeated(' ', right_padding(width))
        + seq!['║']
}

/// The row of a box that holds `text`, centered by its display width.
pub open spec fn boxed(text: Seq<char>) -> Seq<char> {
    centered(text, display_width(text))
}

/// The title of an article, with two blanks on either side.
pub open spec fn title_text(issue: Seq<char>, article: Seq<char>) -> Seq<char> {
    "  Phrack Issue "@ + issue + " Article "@ + article + "  "@
}

/// The text of the footer for the address `url`, with two blanks on either
/// side.
pub open spec fn link_text(url: Seq<char>) -> Seq<char> {
    "  "@ + ("Direct Link to Article "@ + url) + "  "@
}

/// The lines that open every document.
pub open spec fn banner(issue: Seq<char>, article: Seq<char>) -> Seq<LineView> {
    seq![
        plain(Seq::empty()),
        plain(box_top()),
        plain(boxed(title_text(issue, article))),
        plain(box_bottom()),
        plain(Seq::empty()),
        plain("ARTICLE CONTENT:"@),
        plain(Seq::empty()),
    ]
}

/// The label of the section with the number `number`, counted from one.
pub open spec fn section_label(number: nat) -> Seq<char> {
    "SECTION "@ + decimal_digits(number)
}

/// The text is the label of some section.
pub open spec fn is_section_label(text: Seq<char>) -> bool {
    exists|number: nat| text == section_label(number)
}

/// The rule that stands between two sections.
pub open spec fn section_separator() -> Seq<char> {
    repeated('═', RULE_WIDTH as nat)
}

/// The rule under a section's label.
pub open spec fn label_rule() -> Seq<char> {
    repeated('─', RULE_WIDTH as nat)
}

/// The given texts as lines, each styled by what it holds.
pub open spec fn classified(texts: Seq<Seq<char>>) -> Seq<LineView> {
    Seq::new(texts.len(), |i: int| LineView { text: texts[i], style: style_of(texts[i]) })
}

/// The head of the section at position `index`, counted from zero: the
/// separator, except before the first section, then label and rule.
pub open spec fn section_head(index: nat) -> Seq<LineView> {
    if index > 0 {
        seq![
            plain(section_separator()),
            plain(section_label(index + 1)),
            plain(label_rule()),
        ]
    } else {
        seq![plain(section_label(index + 1)), plain(label_rule())]
    }
}

/// The section at position `index` for the text block `block`.
pub open spec fn section(index: nat, block: Seq<char>) -> Seq<LineView> {
    section_head(index) + classified(split_lines(block))
}

/// The sections of the given text blocks, in the order of the blocks.
pub open spec fn sections(blocks: Seq<Seq<char>>) -> Seq<LineView>
    decreases blocks.len(),
{
    if blocks.len() == 0 {
        Seq::empty()
    } else {
        sections(blocks.drop_last()) + section((blocks.len() - 1) as nat, blocks.last())
    }
}

/// The lines that close a document with sections.
pub open spec fn footer(url: Seq<char>) -> Seq<LineView> {
    seq![
        plain(Seq::empty()),
        plain(box_top()),
        plain(boxed(link_text(url))),
        plain(box_bottom()),
    ]
}

/// The line that stands for the sections where the article has no text
/// block.
pub open spec fn no_content_line() -> LineView {
    LineView { text: "No Article tags found on the page."@, style: StyleTag::Highlighted }
}

/// The document of an article: the banner, then either the sections of its
/// text blocks followed by the footer, or the line that says there are none.
pub open spec fn document(issue: Seq<char>, article: Seq<char>, blocks: Seq<Seq<char>>) -> Seq<
    LineView,
> {
    if blocks.len() == 0 {
        banner(issue, article).push(no_content_line())
    } else {
        banner(issue, article) + sections(blocks) + footer(article_url(issue, article))
    }
}

/// The text contents of the `pre` elements of the HTML document `html`, one
/// text for each element, in the order in which the `scraper` crate's
/// `Html::select` yields them.
pub uninterp spec fn pre_blocks(html: Seq<char>) -> Seq<Seq<char>>;

/// Parses `html` with `Html::parse_document` of the `scraper` crate, selects
/// the elements that match `pre` with `Html::select`, and joins the text
/// nodes of each with `ElementRef::text`. The contract only gives the result
/// its name: parsing and selection depend on the characters of `html` alone.
/// Pages above the limit are left out: the parser's buffers refuse to grow
/// past 2^31 bytes, or past 2^30 where addresses have 32 bits, and a text
/// grown from the page can be three times as long as the page (a NUL byte
/// becomes the three bytes of U+FFFD).
#[verifier::external_body]
pub(crate) fn extract_pre_blocks(html: &str) -> (blocks: Vec<String>)
    requires
        html.len() <= MAX_PAGE_BYTES,
    ensures
        texts_of(blocks@) == pre_blocks(html@),
{
    let parsed = Html::parse_document(html);
    let selector = Selector::parse("pre").unwrap();
    let mut blocks = Vec::new();
    for element in parsed.select(&selector) {
        blocks.push(element.text().collect::<Vec<_>>().join(""));
    }
    blocks
}

/// Appends a line without styling to `doc`.
fn push_plain(doc: &mut Vec<Line>, text: String)
    ensures
        lines_view(final(doc)@) == lines_view(old(doc)@).push(plain(text@)),
{
    doc.push(Line { text, style: StyleTag::Normal });
    assert(lines_view(doc@) =~= lines_view(old(doc)@).push(plain(text@)));
}

/// Appends an empty line to `doc`.
fn push_blank(doc: &mut Vec<Line>)
    ensures
        lines_view(final(doc)@) == lines_view(old(doc)@).push(plain(Seq::empty())),
{
    push_plain(doc, String::new());
}

/// The address of the article `article` of the issue `issue`.
pub fn article_link(issue: &str, article: &str) -> (url: String)
    ensures
        url@ == article_url(issue@, article@),
{
    let mut url = String::new();
    url.append("https://phrack.org/issues/");
    url.append(issue);
    url.append("/");
    url.append(article);
    assert(url@ =~= article_url(issue@, article@));
    url
}

/// A side of a box between the corners `left` and `right`.
fn box_side(left: char, right: char) -> (side: String)
    ensures
        side@ == seq![left] + repeated('═', BOX_INNER_WIDTH as nat) + seq![right],
{
    let mut side = String::new();
    side.push(left);
    push_repeated(&mut side, '═', BOX_INNER_WIDTH);
    side.push(right);
    assert(side@ =~= seq![left] + repeated('═', BOX_INNER_WIDTH as nat) + seq![right]);
    side
}

/// The row of a box that holds `text`, centered as a text of `width`
/// columns.
pub fn centered_row(text: &str, width: usize) -> (row: String)
    ensures
        row@ == centered(text@, width as nat),
{
    let left: usize = if width <= BOX_INNER_WIDTH {
        (BOX_INNER_WIDTH - width) / 2
    } else {
        0
    };
    let right: usize = if width <= BOX_INNER_WIDTH {
        BOX_INNER_WIDTH - width - left
    } else {
        0
    };
    let mut row = String::new();
    row.push('║');
    push_repeated(&mut row, ' ', left);
    row.append(text);
    push_repeated(&mut row, ' ', right);
    row.push('║');
    assert(row@ =~= centered(text@, width as nat));
    row
}

/// The row of a box that holds `text`, centered by its display width.
pub fn boxed_row(text: &str) -> (row: String)
    ensures
        row@ == boxed(text@),
{
    let width = str_width(text);
    centered_row(text, width)
}

/// Appends the banner for the given issue and article to `doc`.
fn push_banner(doc: &mut Vec<Line>, issue: &str, article: &str)
    ensures
        lines_view(final(doc)@) == lines_view(old(doc)@) + banner(issue@, article@),
{
    let mut title = String::new();
    title.append("  Phrack Issue ");
    title.append(issue);
    title.append(" Article ");
    title.append(article);
    title.append("  ");
    assert(title@ =~= title_text(issue@, article@));
    let mut heading = String::new();
    heading.append("ARTICLE CONTENT:");
    assert(heading@ =~= "ARTICLE CONTENT:"@);
    push_blank(doc);
    push_plain(doc, box_side('╔', '╗'));
    push_plain(doc, boxed_row(title.as_str()));
    push_plain(doc, box_side('╚', '╝'));
    push_blank(doc);
    push_plain(doc, heading);
    push_blank(doc);
    assert(lines_view(doc@) =~= lines_view(old(doc)@) + banner(issue@, article@));
}

/// Appends the footer with the address `url` to `doc`.
fn push_footer(doc: &mut Vec<Line>, url: &str)
    ensures
        lines_view(final(doc)@) == lines_view(old(doc)@) + footer(url@),
{
    let mut link = String::new();
    link.append("  ");
    link.append("Direct Link to Article ");
    link.append(url);
    link.append("  ");
    assert(link@ =~= link_text(url@));
    push_blank(doc);
    push_plain(doc, box_side('╔', '╗'));
    push_plain(doc, boxed_row(link.as_str()));
    push_plain(doc, box_side('╚', '╝'));
    assert(lines_view(doc@) =~= lines_view(old(doc)@) + footer(url@));
}

/// Appends the section at position `index`, counted from zero, for the text
/// block `block` to `doc`.
fn push_section(doc: &mut Vec<Line>, index: usize, block: &str)
    ensures
        lines_view(final(doc)@) == lines_view(old(doc)@) + section(index as nat, block@),
{
    if index > 0 {
        let mut separator = String::new();
        push_repeated(&mut separator, '═', RULE_WIDTH);
        assert(separator@ =~= section_separator());
        push_plain(doc, separator);
    }
    let mut label = String::new();
    label.append("SECTION ");
    push_decimal(&mut label, index as u128 + 1);
    assert(label@ =~= section_label(index as nat + 1));
    push_plain(doc, label);
    let mut rule = String::new();
    push_repeated(&mut rule, '─', RULE_WIDTH);
    assert(rule@ =~= label_rule());
    push_plain(doc, rule);
    assert(lines_view(doc@) =~= lines_view(old(doc)@) + section_head(index as nat));

    let lines = lines_of(block);
    let ghost texts = split_lines(block@);
    let ghost head = lines_view(doc@);
    let mut i: usize = 0;
    while i < lines.len()
        invariant
            i <= lines@.len(),
            texts_of(lines@) == texts,
            lines_view(doc@) == head + classified(texts).take(i as int),
        decreases lines@.len() - i,
    {
        let line = Line::classified(lines[i].as_str());
        let ghost before = lines_view(doc@);
        assert(texts.len() == lines@.len());
        assert(texts[i as int] == lines@[i as int]@);
        assert(line@ == classified(texts)[i as int]);
        doc.push(line);
        assert(lines_view(doc@) =~= before.push(line@));
        i += 1;
        assert(classified(texts).take(i as int) =~= classified(texts).take(i - 1).push(line@));
        assert(lines_view(doc@) =~= head + classified(texts).take(i as int));
    }
    assert(lines_view(doc@) =~= lines_view(old(doc)@) + section(index as nat, block@));
}

/// Puts together the document of the article `article` of the issue `issue`
/// from its text blocks.
pub fn assemble_document(issue: &str, article: &str, blocks: &Vec<String>) -> (doc: Vec<Line>)
    ensures
        lines_view(doc@) == document(issue@, article@, texts_of(blocks@)),
{
    let ghost texts = texts_of(blocks@);
    let mut doc: Vec<Line> = Vec::new();
    push_banner(&mut doc, issue, article);
    assert(lines_view(doc@) =~= banner(issue@, article@));
    if blocks.len() == 0 {
        let mut text = String::new();
        text.append("No Article tags found on the page.");
        doc.push(Line { text, style: StyleTag::Highlighted });
        assert(lines_view(doc@) =~= banner(issue@, article@).push(no_content_line()));
        return doc;
    }
    let mut i: usize = 0;
    assert(texts.take(0) =~= Seq::<Seq<char>>::empty());
    while i < blocks.len()
        invariant
            i <= blocks@.len(),
            texts == texts_of(blocks@),
            lines_view(doc@) == banner(issue@, article@) + sections(texts.take(i as int)),
        decreases blocks@.len() - i,
    {
        push_section(&mut doc, i, blocks[i].as_str());
        proof {
            let grown = texts.take(i + 1);
            assert(grown.drop_last() =~= texts.take(i as int));
            assert(grown.last() == blocks@[i as int]@);
        }
        i += 1;
        assert(lines_view(doc@) =~= banner(issue@, article@) + sections(texts.take(i as int)));
    }
    assert(texts.take(i as int) =~= texts);
    let url = article_link(issue, article);
    push_footer(&mut doc, url.as_str());
    assert(lines_view(doc@) =~= document(issue@, article@, texts));
    doc
}

/// Puts together the document of an article from the HTML page that holds
/// it: the text blocks are the `pre` elements of the page. A page of more
/// than `MAX_PAGE_BYTES` bytes is not taken apart, and only such a page gives
/// `None`.
pub fn load_document(issue: &str, article: &str, html: &str) -> (doc: Option<Vec<Line>>)
    ensures
        doc is None <==> html.len() > MAX_PAGE_BYTES,
        doc matches Some(lines) ==> lines_view(lines@) == document(
            issue@,
            article@,
            pre_blocks(html@),
        ),
{
    if html.len() > MAX_PAGE_BYTES {
        return None;
    }
    let blocks = extract_pre_blocks(html);
    Some(assemble_document(issue, article, &blocks))
}

/// The sections stand in the order of their blocks: a further block adds its
/// section behind those that are there, under the next number.
pub proof fn lemma_sections_in_order(blocks: Seq<Seq<char>>, next: Seq<char>)
    ensures
        sections(blocks.push(next)) == sections(blocks) + section(blocks.len(), next),
{
    assert(blocks.push(next).drop_last() =~= blocks);
}

/// A section label begins with the letter `S`.
pub proof fn lemma_label_starts_with_s(number: nat)
    ensures
        section_label(number).len() > 0,
        section_label(number)[0] == 'S',
{
    reveal_strlit("SECTION ");
}

/// Without a text block the document is the banner and the one line that
/// says that nothing was found; none of its eight lines is a section label.
pub proof fn lemma_document_without_blocks(issue: Seq<char>, article: Seq<char>)
    ensures
        document(issue, article, Seq::empty()) == banner(issue, article).push(no_content_line()),
        document(issue, article, Seq::empty()).len() == 8,
        forall|i: int|
            0 <= i < 8 ==> !is_section_label(
                #[trigger] document(issue, article, Seq::empty())[i].text,
            ),
{
    let doc = document(issue, article, Seq::empty());
    reveal_strlit("ARTICLE CONTENT:");
    reveal_strlit("No Article tags found on the page.");
    assert forall|i: int| 0 <= i < 8 implies !is_section_label(#[trigger] doc[i].text) by {
        let text = doc[i].text;
        if is_section_label(text) {
            let number = choose|number: nat| text == section_label(number);
            lemma_label_starts_with_s(number);
            assert(text[0] != 'S');
        }
    }
}

/// With two text blocks the document holds, behind the banner: the label of
/// the first section and its rule, the lines of the first block, one
/// separator, the label of the second section and its rule, the lines of the
/// second block, and the footer. No other separator is put in.
pub proof fn lemma_document_of_two_blocks(
    issue: Seq<char>,
    article: Seq<char>,
    first: Seq<char>,
    second: Seq<char>,
)
    ensures
        document(issue, article, seq![first, second]) == banner(issue, article) + seq![
            plain(section_label(1)),
            plain(label_rule()),
        ] + classified(split_lines(first)) + seq![
            plain(section_separator()),
            plain(section_label(2)),
            plain(label_rule()),
        ] + classified(split_lines(second)) + footer(article_url(issue, article)),
{
    let none = Seq::<Seq<char>>::empty();
    lemma_sections_in_order(none, first);
    lemma_sections_in_order(none.push(first), second);
    assert(none.push(first).push(second) =~= seq![first, second]);
    assert(sections(none) =~= Seq::<LineView>::empty());
    assert(sections(seq![first, second]) =~= seq![
        plain(section_label(1)),
        plain(label_rule()),
    ] + classified(split_lines(first)) + seq![
        plain(section_separator()),
        plain(section_label(2)),
        plain(label_rule()),
    ] + classified(split_lines(second)));
    assert(document(issue, article, seq![first, second]) =~= banner(issue, article) + seq![
        plain(section_label(1)),
        plain(label_rule()),
    ] + classified(split_lines(first)) + seq![
        plain(section_separator()),
        plain(section_label(2)),
        plain(label_rule()),
    ] + classified(split_lines(second)) + footer(article_url(issue, article)));
}

} // verus!
