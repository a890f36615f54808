use crate::page::{page_models, Page, PageModel};
use vstd::prelude::*;
use vstd::string::*;

verus! {

/// Where the navigation links go relative to a page's text.
#[derive(Clone, Copy, Debug, PartialEq, Eq, Structural)]
pub enum LinkPlacement {
    /// One link line after the content.
    AppendOnly,
    /// One link line before the content and an identical one after it.
    WrapContent,
}

/// The URL of a neighbouring page: the base URL and the file name joined by
/// a single slash, with no escaping or normalisation.
pub open spec fn link_target_spec(base_url: Seq<char>, file_name: Seq<char>) -> Seq<char> {
    base_url + "/"@ + file_name
}

/// The link to the previous page, or the bare label on the first page.
pub open spec fn prev_link_spec(pages: Seq<PageModel>, i: int, base_url: Seq<char>) -> Seq<char> {
    if i <= 0 {
        "Prev"@
    } else {
        "[Prev]("@ + link_target_spec(base_url, pages[i - 1].file_name) + ")"@
    }
}

/// The link to the next page, or the bare label on the last page.
pub open spec fn next_link_spec(pages: Seq<PageModel>, i: int, base_url: Seq<char>) -> Seq<char> {
    if i >= pages.len() - 1 {
        "Next"@
    } else {
        "[Next]("@ + link_target_spec(base_url, pages[i + 1].file_name) + ")"@
    }
}

/// The navigation line of page `i`: both links with a bar between them.
pub open spec fn link_line_spec(pages: Seq<PageModel>, i: int, base_url: Seq<char>) -> Seq<char> {
    prev_link_spec(pages, i, base_url) + " | "@ + next_link_spec(pages, i, base_url)
}

/// A page's text with a navigation line put in place.
pub open spec fn place_links_spec(
    content: Seq<char>,
    line: Seq<char>,
    placement: LinkPlacement,
) -> Seq<char> {
    match placement {
        LinkPlacement::AppendOnly => content + "\n\n"@ + line,
        LinkPlacement::WrapContent => line + "\n\n"@ + content + "\n\n"@ + line,
    }
}

/// Every page of the run, in the same order, with its navigation put in place.
pub open spec fn link_all_spec(
    pages: Seq<PageModel>,
    base_url: Seq<char>,
    placement: LinkPlacement,
) -> Seq<PageModel> {
    Seq::new(
        pages.len(),
        |i: int|
            PageModel {
                file_name: pages[i].file_name,
                content: place_links_spec(
                    pages[i].content,
                    link_line_spec(pages, i, base_url),
                    placement,
                ),
            },
    )
}

/// Joins a base URL and a file name with one slash.
pub fn link_target(base_url: &str, file_name: &str) -> (r: String)
    ensures
        r@ == link_target_spec(base_url@, file_name@),
{
    let mut r = String::from_str(base_url);
    r.append("/");
    r.append(file_name);
    r
}

/// The link from page `i` to the page before it.
pub fn prev_link(pages: &Vec<Page>, i: usize, base_url: &str) -> (r: String)
    requires
        i < pages@.len(),
    ensures
        r@ == prev_link_spec(page_models(pages@), i as int, base_url@),
{
    if i == 0 {
        String::from_str("Prev")
    } else {
        let target = link_target(base_url, pages[i - 1].file_name.as_str());
        let mut r = String::from_str("[Prev](");
        r.append(target.as_str());
        r.append(")");
        r
    }
}

/// The link from page `i` to the page after it.
pub fn next_link(pages: &Vec<Page>, i: usize, base_url: &str) -> (r: String)
    requires
        i < pages@.len(),
    ensures
        r@ == next_link_spec(page_models(pages@), i as int, base_url@),
{
    if i >= pages.len() - 1 {
        String::from_str("Next")
    } else {
        let target = link_target(base_url, pages[i + 1].file_name.as_str());
        let mut r = String::from_str("[Next](");
        r.append(target.as_str());
        r.append(")");
        r
    }
}

/// The navigation line of page `i`.
pub fn link_line(pages: &Vec<Page>, i: usize, base_url: &str) -> (r: String)
    requires
        i < pages@.len(),
    ensures
        r@ == link_line_spec(page_models(pages@), i as int, base_url@),
{
    let mut r = prev_link(pages, i, base_url);
    let next = next_link(pages, i, base_url);
    r.append(" | ");
    r.append(next.as_str());
    r
}

/// Puts a navigation line in place around or after a page's text.
pub fn place_links(content: &str, line: &str, placement: LinkPlacement) -> (r: String)
    ensures
        r@ == place_links_spec(content@, line@, placement),
{
    match placement {
        LinkPlacement::AppendOnly => {
            let mut r = String::from_str(content);
            r.append("\n\n");
            r.append(line);
            r
        },
        LinkPlacement::WrapContent => {
            let mut r = String::from_str(line);
            r.append("\n\n");
            r.append(content);
            r.append("\n\n");
            r.append(line);
            r
        },
    }
}

/// Links every page of an ordered run to its neighbours. The result has one
/// page per input page, in the same order and under the same file name.
pub fn link_pages(pages: &Vec<Page>, base_url: &str, placement: LinkPlacement) -> (r: Vec<Page>)
    ensures
        page_models(r@) == link_all_spec(page_models(pages@), base_url@, placement),
{
    let ghost models = page_models(pages@);
    let mut r: Vec<Page> = Vec::new();
    let mut i: usize = 0;
    while i < pages.len()
        invariant
            i <= pages@.len(),
            models == page_models(pages@),
            r@.len() == i,
            forall|j: int|
                0 <= j < i ==> #[trigger] r@[j]@ == link_all_spec(models, base_url@, placement)[j],
        decreases pages@.len() - i,
    {
        let line = link_line(pages, i, base_url);
        let content = place_links(pages[i].content.as_str(), line.as_str(), placement);
        let page = Page { file_name: pages[i].file_name.clone(), content };
        r.push(page);
        i = i + 1;
    }
    assert(page_models(r@) =~= link_all_spec(models, base_url@, placement));
    r
}

/// In a run of two or more pages the first page shows the bare "Prev" label
/// and the last the bare "Next" label; every other page links back to the
/// file name of the page just before it and forward to the one just after
/// it, and such a link is never the bare label.
pub proof fn lemma_neighbor_links(pages: Seq<PageModel>, base_url: Seq<char>)
    requires
        pages.len() >= 2,
    ensures
        prev_link_spec(pages, 0, base_url) == "Prev"@,
        next_link_spec(pages, pages.len() - 1, base_url) == "Next"@,
        forall|i: int|
            0 < i < pages.len() ==> {
                &&& #[trigger] prev_link_spec(pages, i, base_url) == "[Prev]("@ + link_target_spec(
                    base_url,
                    pages[i - 1].file_name,
                ) + ")"@
                &&& prev_link_spec(pages, i, base_url) != "Prev"@
            },
        forall|i: int|
            0 <= i < pages.len() - 1 ==> {
                &&& #[trigger] next_link_spec(pages, i, base_url) == "[Next]("@ + link_target_spec(
                    base_url,
                    pages[i + 1].file_name,
                ) + ")"@
                &&& next_link_spec(pages, i, base_url) != "Next"@
            },
{
    reveal_strlit("Prev");
    reveal_strlit("Next");
    reveal_strlit("[Prev](");
    reveal_strlit("[Next](");
    assert forall|i: int| 0 < i < pages.len() implies prev_link_spec(pages, i, base_url)
        != "Prev"@ by {
        assert(prev_link_spec(pages, i, base_url).len() > "Prev"@.len());
    }
    assert forall|i: int| 0 <= i < pages.len() - 1 implies next_link_spec(pages, i, base_url)
        != "Next"@ by {
        assert(next_link_spec(pages, i, base_url).len() > "Next"@.len());
    }
}

/// A single page has no neighbours: both of its links are the bare labels.
pub proof fn lemma_single_page_links(pages: Seq<PageModel>, base_url: Seq<char>)
    requires
        pages.len() == 1,
    ensures
        prev_link_spec(pages, 0, base_url) == "Prev"@,
        next_link_spec(pages, 0, base_url) == "Next"@,
{
}

/// Linking an empty run gives no pages.
pub proof fn lemma_empty_run(base_url: Seq<char>, placement: LinkPlacement)
    ensures
        link_all_spec(Seq::<PageModel>::empty(), base_url, placement) == Seq::<PageModel>::empty(),
{
    assert(link_all_spec(Seq::<PageModel>::empty(), base_url, placement) =~= Seq::<
        PageModel,
    >::empty());
}

/// Linking is not idempotent: linking the linked pages again keeps the file
/// names and the same navigation lines, and puts each line in place once
/// more, so every page's text grows.
pub proof fn lemma_relinking_grows(
    pages: Seq<PageModel>,
    base_url: Seq<char>,
    placement: LinkPlacement,
)
    ensures
        ({
            let once = link_all_spec(pages, base_url, placement);
            let twice = link_all_spec(once, base_url, placement);
            &&& twice.len() == pages.len()
            &&& forall|i: int|
                0 <= i < pages.len() ==> {
                    &&& #[trigger] twice[i].file_name == pages[i].file_name
                    &&& twice[i].content == place_links_spec(
                        once[i].content,
                        link_line_spec(pages, i, base_url),
                        placement,
                    )
                    &&& twice[i].content.len() > once[i].content.len()
                }
        }),
{
    reveal_strlit("\n\n");
    let once = link_all_spec(pages, base_url, placement);
    let twice = link_all_spec(once, base_url, placement);
    assert forall|i: int| 0 <= i < pages.len() implies {
        &&& #[trigger] twice[i].file_name == pages[i].file_name
        &&& twice[i].content == place_links_spec(
            once[i].content,
            link_line_spec(pages, i, base_url),
            placement,
        )
        &&& twice[i].content.len() > once[i].content.len()
    } by {
        assert(prev_link_spec(once, i, base_url) == prev_link_spec(pages, i, base_url));
        assert(next_link_spec(once, i, base_url) == next_link_spec(pages, i, base_url));
    }
}

} // verus!
