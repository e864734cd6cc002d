use vstd::prelude::*;
use vstd::string::{StrSliceExecFns, StringExecFns};

use crate::text::{decimal, push_decimal, trim, trim_white_space};

verus! {

/// The name under which image `image_index` of page `page_index` is written,
/// both counted from one in the name.
pub open spec fn image_file_name(page_index: nat, image_index: nat) -> Seq<char> {
    seq!['p', 'a', 'g', 'e', '-'] + decimal(page_index + 1) + seq!['-', 'i', 'm', 'a', 'g', 'e', '-']
        + decimal(image_index + 1) + seq!['.', 'p', 'n', 'g']
}

/// Builds `page-<p>-image-<k>.png` from zero-based page and image indexes.
pub fn build_extracted_image_file_name(page_index: usize, image_index: usize) -> (r: String)
    requires
        page_index < usize::MAX,
        image_index < usize::MAX,
    ensures
        r@ == image_file_name(page_index as nat, image_index as nat),
{
    proof {
        reveal_strlit("page-");
        reveal_strlit("-image-");
        reveal_strlit(".png");
    }
    let mut name = String::from_str("page-");
    push_decimal(&mut name, page_index + 1);
    name.append("-image-");
    push_decimal(&mut name, image_index + 1);
    name.append(".png");
    assert(name@ =~= image_file_name(page_index as nat, image_index as nat));
    name
}

/// How many of the first `upto` entries of `pages` equal `page`.
pub open spec fn count_page(pages: Seq<usize>, page: usize, upto: int) -> nat
    decreases upto,
{
    if upto <= 0 {
        0
    } else {
        count_page(pages, page, upto - 1) + if pages[upto - 1] == page {
            1nat
        } else {
            0nat
        }
    }
}

/// The zero-based ordinal of each image within its page, for images listed by
/// page index in discovery order: the number of earlier images on the same page.
pub fn image_indexes_within_pages(page_indexes: &[usize]) -> (r: Vec<usize>)
    ensures
        r@.len() == page_indexes@.len(),
        forall|j: int|
            0 <= j < r@.len() ==> r@[j] == count_page(page_indexes@, page_indexes@[j], j),
{
    let mut out: Vec<usize> = Vec::new();
    let mut j: usize = 0;
    while j < page_indexes.len()
        invariant
            j <= page_indexes@.len(),
            out@.len() == j,
            forall|k: int|
                0 <= k < j ==> out@[k] == count_page(page_indexes@, page_indexes@[k], k),
        decreases page_indexes@.len() - j,
    {
        let page = page_indexes[j];
        let mut count: usize = 0;
        let mut i: usize = 0;
        while i < j
            invariant
                i <= j < page_indexes@.len(),
                page == page_indexes@[j as int],
                count == count_page(page_indexes@, page, i as int),
                count <= i,
            decreases j - i,
        {
            if page_indexes[i] == page {
                count = count + 1;
            }
            i = i + 1;
        }
        out.push(count);
        j = j + 1;
    }
    out
}

/// What `std::path::Path::file_stem` gives for the path `path`.
pub uninterp spec fn path_file_stem(path: Seq<char>) -> Option<Seq<char>>;

/// Relies on `std::path::Path::file_stem`, a function of the path text alone; a
/// stem taken from a `&str` is valid UTF-8, so `to_str` keeps it whole.
#[verifier::external_body]
fn file_stem(path: &str) -> (r: Option<String>)
    ensures
        match r {
            Some(s) => path_file_stem(path@) == Some(s@),
            None => path_file_stem(path@) is None,
        },
{
    match std::path::Path::new(path).file_stem() {
        Some(stem) => stem.to_str().map(String::from),
        None => None,
    }
}

/// The output directory named after a file stem: the stem without surrounding
/// white space, or `images` when there is no stem or nothing is left of it,
/// followed by `-images`.
pub open spec fn output_dir_name(stem: Option<Seq<char>>) -> Seq<char> {
    let base = match stem {
        Some(s) => if trim(s).len() > 0 {
            trim(s)
        } else {
            seq!['i', 'm', 'a', 'g', 'e', 's']
        },
        None => seq!['i', 'm', 'a', 'g', 'e', 's'],
    };
    base + seq!['-', 'i', 'm', 'a', 'g', 'e', 's']
}

/// The default output directory for an input whose file stem is `stem`.
pub fn output_dir_for_stem(stem: Option<&str>) -> (r: String)
    ensures
        r@ == output_dir_name(
            match stem {
                Some(s) => Some(s@),
                None => None,
            },
        ),
{
    proof {
        reveal_strlit("images");
        reveal_strlit("-images");
    }
    let mut dir = match stem {
        Some(s) => {
            let t = trim_white_space(s);
            if t.unicode_len() > 0 {
                String::from_str(t)
            } else {
                String::from_str("images")
            }
        },
        None => String::from_str("images"),
    };
    dir.append("-images");
    dir
}

/// The default output directory for the input file at `input_pdf_path`: its
/// file stem followed by `-images`.
pub fn default_output_dir(input_pdf_path: &str) -> (r: String)
    ensures
        r@ == output_dir_name(path_file_stem(input_pdf_path@)),
{
    match file_stem(input_pdf_path) {
        Some(stem) => output_dir_for_stem(Some(stem.as_str())),
        None => output_dir_for_stem(None),
    }
}

} // verus!
