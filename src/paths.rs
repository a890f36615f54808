use vstd::prelude::*;
use vstd::string::*;

verus! {

/// The file-name pattern that selects the pages of a directory.
pub open spec fn pages_pattern_spec(dir: Seq<char>) -> Seq<char> {
    dir + "/*.md"@
}

/// The path of a file in a directory.
pub open spec fn page_path_spec(dir: Seq<char>, file_name: Seq<char>) -> Seq<char> {
    dir + "/"@ + file_name
}

/// The directory that receives the translated pages of a book directory.
pub open spec fn translated_dir_spec(books_dir: Seq<char>) -> Seq<char> {
    books_dir + "/translated"@
}

/// The instruction sent ahead of a page's text when asking for its translation.
pub open spec fn translation_prompt_spec(page_content: Seq<char>) -> Seq<char> {
    "英語に翻訳してください。\n\n"@ + page_content
}

/// The pattern `<dir>/*.md` that selects the pages of `dir`.
pub fn pages_pattern(dir: &str) -> (r: String)
    ensures
        r@ == pages_pattern_spec(dir@),
{
    let mut r = String::from_str(dir);
    r.append("/*.md");
    r
}

/// The path `<dir>/<file_name>`.
pub fn page_path(dir: &str, file_name: &str) -> (r: String)
    ensures
        r@ == page_path_spec(dir@, file_name@),
{
    let mut r = String::from_str(dir);
    r.append("/");
    r.append(file_name);
    r
}

/// The directory `<books_dir>/translated`.
pub fn translated_dir(books_dir: &str) -> (r: String)
    ensures
        r@ == translated_dir_spec(books_dir@),
{
    let mut r = String::from_str(books_dir);
    r.append("/translated");
    r
}

/// The request text for translating a page: a fixed instruction, a blank
/// line, then the page's text unchanged.
pub fn create_translation_prompt(page_content: &str) -> (r: String)
    ensures
        r@ == translation_prompt_spec(page_content@),
{
    let mut r = String::from_str("英語に翻訳してください。\n\n");
    r.append(page_content);
    r
}

} // verus!
