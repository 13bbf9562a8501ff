use vstd::prelude::*;

use crate::content::ClipboardFormat;
use crate::content::ContentView;
use crate::content::ImageView;
use crate::files::FileSizeProbe;
use crate::files::lemma_empty_file_list_total;
use crate::files::sat_u64;
use crate::files::total_of;
use crate::service::files_request;
use crate::service::html_request;
use crate::service::image_request;
use crate::service::rtf_request;
use crate::service::text_request;
use crate::state::apply_values;
use crate::state::empty_view;
use crate::state::present;
use crate::state::set_result;

verus! {

/// Writing plain text round-trips: afterwards the clipboard holds exactly
/// that text and nothing else, so `has_text` answers true and `read_text`
/// returns the written content while every other format is absent.
pub proof fn lemma_write_text_round_trip(c: Seq<char>)
    ensures
        ({
            let sv = set_result(text_request(c));
            &&& sv.text == Some(c)
            &&& present(sv, ClipboardFormat::Text)
            &&& !present(sv, ClipboardFormat::Rtf)
            &&& !present(sv, ClipboardFormat::Html)
            &&& !present(sv, ClipboardFormat::Image)
            &&& !present(sv, ClipboardFormat::FileList)
        }),
{
    reveal_with_fuel(apply_values, 3);
    assert(text_request(c).drop_first() =~= Seq::<ContentView>::empty());
}

/// Writing rich text round-trips and leaves the plain-text fallback:
/// afterwards `has_rtf` answers true, `read_rtf` returns the written
/// content, and `read_text` returns the same content unchanged; the other
/// formats are absent.
pub proof fn lemma_write_rtf_round_trip(c: Seq<char>)
    ensures
        ({
            let sv = set_result(rtf_request(c));
            &&& sv.rtf == Some(c)
            &&& sv.text == Some(c)
            &&& present(sv, ClipboardFormat::Rtf)
            &&& present(sv, ClipboardFormat::Text)
            &&& !present(sv, ClipboardFormat::Html)
            &&& !present(sv, ClipboardFormat::Image)
            &&& !present(sv, ClipboardFormat::FileList)
        }),
{
    reveal_with_fuel(apply_values, 4);
    let s = rtf_request(c);
    assert(s.drop_first() =~= seq![ContentView::Text(c)]);
    assert(s.drop_first().drop_first() =~= Seq::<ContentView>::empty());
}

/// Writing HTML round-trips and leaves the plain-text fallback: afterwards
/// `has_html` answers true, `read_html` returns the written content, and
/// `read_text` returns the same content unchanged; the other formats are
/// absent.
pub proof fn lemma_write_html_round_trip(c: Seq<char>)
    ensures
        ({
            let sv = set_result(html_request(c));
            &&& sv.html == Some(c)
            &&& sv.text == Some(c)
            &&& present(sv, ClipboardFormat::Html)
            &&& present(sv, ClipboardFormat::Text)
            &&& !present(sv, ClipboardFormat::Rtf)
            &&& !present(sv, ClipboardFormat::Image)
            &&& !present(sv, ClipboardFormat::FileList)
        }),
{
    reveal_with_fuel(apply_values, 4);
    let s = html_request(c);
    assert(s.drop_first() =~= seq![ContentView::Text(c)]);
    assert(s.drop_first().drop_first() =~= Seq::<ContentView>::empty());
}

/// Writing an image round-trips: afterwards `has_image` answers true and
/// the clipboard holds exactly that image; the other formats are absent.
pub proof fn lemma_write_image_round_trip(img: ImageView)
    ensures
        ({
            let sv = set_result(image_request(img));
            &&& sv.image == Some(img)
            &&& present(sv, ClipboardFormat::Image)
            &&& !present(sv, ClipboardFormat::Text)
            &&& !present(sv, ClipboardFormat::Rtf)
            &&& !present(sv, ClipboardFormat::Html)
            &&& !present(sv, ClipboardFormat::FileList)
        }),
{
    reveal_with_fuel(apply_values, 3);
    assert(image_request(img).drop_first() =~= Seq::<ContentView>::empty());
}

/// Writing a file list round-trips: afterwards `has_files` answers true and
/// `read_files` returns exactly the written paths in order; the other
/// formats are absent.
pub proof fn lemma_write_files_round_trip(paths: Seq<Seq<char>>)
    ensures
        ({
            let sv = set_result(files_request(paths));
            &&& sv.files == Some(paths)
            &&& present(sv, ClipboardFormat::FileList)
            &&& !present(sv, ClipboardFormat::Text)
            &&& !present(sv, ClipboardFormat::Rtf)
            &&& !present(sv, ClipboardFormat::Html)
            &&& !present(sv, ClipboardFormat::Image)
        }),
{
    reveal_with_fuel(apply_values, 3);
    assert(files_request(paths).drop_first() =~= Seq::<ContentView>::empty());
}

/// After a clear, every format is absent: each `has_*` answers false.
pub proof fn lemma_clear_all_absent()
    ensures
        forall|f: ClipboardFormat| !present(empty_view(), f),
{
}

/// Writing an empty file list and reading it back yields an empty sequence
/// and total size zero.
pub proof fn lemma_empty_file_list_read()
    ensures
        set_result(files_request(Seq::<Seq<char>>::empty())).files == Some(
            Seq::<Seq<char>>::empty(),
        ),
        sat_u64(total_of(Seq::<FileSizeProbe>::empty())) == 0u64,
{
    lemma_write_files_round_trip(Seq::<Seq<char>>::empty());
    lemma_empty_file_list_total();
}

} // verus!
