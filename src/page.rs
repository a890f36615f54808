use vstd::prelude::*;

verus! {

/// One text page: the base name of its file and its full text.
#[derive(Clone, Debug, PartialEq, Eq)]
pub struct Page {
    pub file_name: String,
    pub content: String,
}

/// What a page is, mathematically: two character sequences.
pub struct PageModel {
    pub file_name: Seq<char>,
    pub content: Seq<char>,
}

impl View for Page {
    type V = PageModel;

    open spec fn view(&self) -> PageModel {
        PageModel { file_name: self.file_name@, content: self.content@ }
    }
}

/// The models of an ordered run of pages.
pub open spec fn page_models(pages: Seq<Page>) -> Seq<PageModel> {
    pages.map_values(|p: Page| p@)
}

impl Page {
    pub fn new(file_name: String, content: String) -> (r: Page)
        ensures
            r.file_name@ == file_name@,
            r.content@ == content@,
    {
        Page { file_name, content }
    }
}

} // verus!
