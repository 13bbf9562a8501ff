use vstd::prelude::*;
use vstd::string::StringExecFns;

use crate::cache::ImageCache;
use crate::cache::cache_insert;
use crate::cache::cache_needs_write;
use crate::cache::fnv1a64;
use crate::cache::fnv1a_of;
use crate::cache::image_cache_path;
use crate::cache::image_path_view;
use crate::content::ClipboardContentValue;
use crate::content::ClipboardFormat;
use crate::content::ContentView;
use crate::content::ImageData;
use crate::content::ImageView;
use crate::content::clone_strings;
use crate::content::format_of_view;
use crate::error::ClipboardError;
use crate::models::ReadImage;
use crate::state::ClipboardState;
use crate::state::StateView;
use crate::state::empty_view;
use crate::state::present;
use crate::state::set_result;
use crate::watch::WatchLifecycle;
use crate::watch::WatchPlan;
use crate::watch::start_watch_spec;
use crate::watch::stop_watch_spec;

verus! {

/// The set batch a plain-text write hands to the clipboard.
pub open spec fn text_request(c: Seq<char>) -> Seq<ContentView> {
    seq![ContentView::Text(c)]
}

/// The set batch a rich-text write hands to the clipboard: the rich value
/// followed by a plain-text fallback of the same content, so targets that
/// only understand plain text still receive readable content.
pub open spec fn rtf_request(c: Seq<char>) -> Seq<ContentView> {
    seq![ContentView::Rtf(c), ContentView::Text(c)]
}

/// The set batch an HTML write hands to the clipboard: the HTML value
/// followed by a plain-text fallback of the same content.
pub open spec fn html_request(c: Seq<char>) -> Seq<ContentView> {
    seq![ContentView::Html(c), ContentView::Text(c)]
}

/// The set batch an image write hands to the clipboard.
pub open spec fn image_request(img: ImageView) -> Seq<ContentView> {
    seq![ContentView::Image(img)]
}

/// The set batch a file-list write hands to the clipboard.
pub open spec fn files_request(paths: Seq<Seq<char>>) -> Seq<ContentView> {
    seq![ContentView::FileList(paths)]
}

/// Mathematical model of the whole service: the clipboard content model, the
/// watch lifecycle, and the set of materialized image hashes.
pub struct ServiceView {
    pub state: StateView,
    pub watch: WatchLifecycle,
    pub cache: Seq<u64>,
}

/// What the native layer must do to finish an image read: the file the image
/// resolves to, whether it still has to be encoded and written, and the
/// dimensions to report.
pub struct ReadImagePlan {
    pub path: String,
    pub needs_write: bool,
    pub width: u32,
    pub height: u32,
}

/// The operation surface of the clipboard plugin. Every decision — which
/// values a write stores, what a read extracts, how the watch lifecycle
/// moves, when an image read touches the disk — is made here; the native
/// layer only mirrors the returned batches and plans onto the OS clipboard.
pub struct ClipboardService {
    state: ClipboardState,
    watch: WatchLifecycle,
    cache: ImageCache,
}

impl View for ClipboardService {
    type V = ServiceView;

    closed spec fn view(&self) -> ServiceView {
        ServiceView { state: self.state@, watch: self.watch, cache: self.cache@ }
    }
}

impl ClipboardService {
    /// A fresh service: empty clipboard model, idle watch lifecycle, nothing
    /// cached.
    pub fn new() -> (r: ClipboardService)
        ensures
            r@.state == empty_view(),
            r@.watch == (WatchLifecycle { active: None, next_id: 0u64 }),
            r@.cache == Seq::<u64>::empty(),
    {
        ClipboardService {
            state: ClipboardState::new(),
            watch: WatchLifecycle::new(),
            cache: ImageCache::new(),
        }
    }

    /// Decide a watch start: the returned plan stops the previously active
    /// watcher, if any, before the fresh one is spawned, so exactly one
    /// watcher is active afterwards.
    pub fn start_watch(&mut self) -> (plan: WatchPlan)
        requires
            old(self)@.watch.next_id < u64::MAX,
        ensures
            (final(self)@.watch, plan) == start_watch_spec(old(self)@.watch),
            final(self)@.watch.active == Some(plan.spawn),
            crate::watch::active_watchers(final(self)@.watch) == 1,
            final(self)@.state == old(self)@.state,
            final(self)@.cache == old(self)@.cache,
    {
        self.watch.start()
    }

    /// Whether a fresh watcher identifier is still available; callers test
    /// this before a watch start.
    pub fn can_start_watch(&self) -> (r: bool)
        ensures
            r == (self@.watch.next_id < u64::MAX),
    {
        self.watch.next_id < u64::MAX
    }

    /// Decide a watch stop: returns the watcher to tear down; with no active
    /// watcher this is a no-op.
    pub fn stop_watch(&mut self) -> (stopped: Option<u64>)
        ensures
            (final(self)@.watch, stopped) == stop_watch_spec(old(self)@.watch),
            final(self)@.watch.active is None,
            old(self)@.watch.active is None ==> final(self)@.watch == old(self)@.watch,
            final(self)@.state == old(self)@.state,
            final(self)@.cache == old(self)@.cache,
    {
        self.watch.stop()
    }

    /// Whether the clipboard holds plain text.
    pub fn has_text(&self) -> (r: bool)
        ensures
            r == present(self@.state, ClipboardFormat::Text),
    {
        self.state.format_present(ClipboardFormat::Text)
    }

    /// Whether the clipboard holds rich text.
    pub fn has_rtf(&self) -> (r: bool)
        ensures
            r == present(self@.state, ClipboardFormat::Rtf),
    {
        self.state.format_present(ClipboardFormat::Rtf)
    }

    /// Whether the clipboard holds HTML.
    pub fn has_html(&self) -> (r: bool)
        ensures
            r == present(self@.state, ClipboardFormat::Html),
    {
        self.state.format_present(ClipboardFormat::Html)
    }

    /// Whether the clipboard holds an image.
    pub fn has_image(&self) -> (r: bool)
        ensures
            r == present(self@.state, ClipboardFormat::Image),
    {
        self.state.format_present(ClipboardFormat::Image)
    }

    /// Whether the clipboard holds a file list.
    pub fn has_files(&self) -> (r: bool)
        ensures
            r == present(self@.state, ClipboardFormat::FileList),
    {
        self.state.format_present(ClipboardFormat::FileList)
    }

    /// The plain-text content, or `FormatNotPresent` when the clipboard does
    /// not hold plain text.
    pub fn read_text(&self) -> (r: Result<String, ClipboardError>)
        ensures
            self@.state.text is Some ==> r is Ok && r->Ok_0@ == self@.state.text->0,
            self@.state.text is None ==> r == Err::<String, ClipboardError>(
                ClipboardError::FormatNotPresent,
            ),
    {
        self.state.read_text()
    }

    /// The rich-text content, or `FormatNotPresent` when the clipboard does
    /// not hold rich text.
    pub fn read_rtf(&self) -> (r: Result<String, ClipboardError>)
        ensures
            self@.state.rtf is Some ==> r is Ok && r->Ok_0@ == self@.state.rtf->0,
            self@.state.rtf is None ==> r == Err::<String, ClipboardError>(
                ClipboardError::FormatNotPresent,
            ),
    {
        self.state.read_rtf()
    }

    /// The HTML content, or `FormatNotPresent` when the clipboard does not
    /// hold HTML.
    pub fn read_html(&self) -> (r: Result<String, ClipboardError>)
        ensures
            self@.state.html is Some ==> r is Ok && r->Ok_0@ == self@.state.html->0,
            self@.state.html is None ==> r == Err::<String, ClipboardError>(
                ClipboardError::FormatNotPresent,
            ),
    {
        self.state.read_html()
    }

    /// The file-list content, or `FormatNotPresent` when the clipboard does
    /// not hold a file list. Sizes are probed by the native layer afterwards
    /// and aggregated with [`crate::build_read_files`].
    pub fn read_files(&self) -> (r: Result<Vec<String>, ClipboardError>)
        ensures
            self@.state.files is Some ==> r is Ok && r->Ok_0.deep_view() == self@.state.files->0,
            self@.state.files is None ==> r is Err && r->Err_0
                == ClipboardError::FormatNotPresent,
    {
        self.state.read_files_paths()
    }

    /// Write plain text: the model and the returned set batch hold exactly
    /// one text value.
    pub fn write_text(&mut self, content: String) -> (req: Vec<ClipboardContentValue>)
        ensures
            req.deep_view() == text_request(content@),
            final(self)@.state == set_result(text_request(content@)),
            final(self)@.watch == old(self)@.watch,
            final(self)@.cache == old(self)@.cache,
    {
        let mut req: Vec<ClipboardContentValue> = Vec::new();
        req.push(ClipboardContentValue::Text(content.clone()));
        let mut vals: Vec<ClipboardContentValue> = Vec::new();
        vals.push(ClipboardContentValue::Text(content));
        proof {
            assert(req.deep_view() =~= text_request(content@));
            assert(vals.deep_view() =~= text_request(content@));
        }
        self.state.set_contents(vals);
        req
    }

    /// Write rich text with its plain-text fallback: the batch stores the
    /// rich value first, then the same content as plain text.
    pub fn write_rtf(&mut self, content: String) -> (req: Vec<ClipboardContentValue>)
        ensures
            req.deep_view() == rtf_request(content@),
            final(self)@.state == set_result(rtf_request(content@)),
            final(self)@.watch == old(self)@.watch,
            final(self)@.cache == old(self)@.cache,
    {
        let mut req: Vec<ClipboardContentValue> = Vec::new();
        req.push(ClipboardContentValue::Rtf(content.clone()));
        req.push(ClipboardContentValue::Text(content.clone()));
        let mut vals: Vec<ClipboardContentValue> = Vec::new();
        vals.push(ClipboardContentValue::Rtf(content.clone()));
        vals.push(ClipboardContentValue::Text(content));
        proof {
            assert(req.deep_view() =~= rtf_request(content@));
            assert(vals.deep_view() =~= rtf_request(content@));
        }
        self.state.set_contents(vals);
        req
    }

    /// Write HTML with its plain-text fallback: the batch stores the HTML
    /// value first, then the same content as plain text.
    pub fn write_html(&mut self, content: String) -> (req: Vec<ClipboardContentValue>)
        ensures
            req.deep_view() == html_request(content@),
            final(self)@.state == set_result(html_request(content@)),
            final(self)@.watch == old(self)@.watch,
            final(self)@.cache == old(self)@.cache,
    {
        let mut req: Vec<ClipboardContentValue> = Vec::new();
        req.push(ClipboardContentValue::Html(content.clone()));
        req.push(ClipboardContentValue::Text(content.clone()));
        let mut vals: Vec<ClipboardContentValue> = Vec::new();
        vals.push(ClipboardContentValue::Html(content.clone()));
        vals.push(ClipboardContentValue::Text(content));
        proof {
            assert(req.deep_view() =~= html_request(content@));
            assert(vals.deep_view() =~= html_request(content@));
        }
        self.state.set_contents(vals);
        req
    }

    /// Write a decoded image: the batch stores exactly that image.
    pub fn write_image(&mut self, image: ImageData) -> (req: Vec<ClipboardContentValue>)
        ensures
            req.deep_view() == image_request(image@),
            final(self)@.state == set_result(image_request(image@)),
            final(self)@.watch == old(self)@.watch,
            final(self)@.cache == old(self)@.cache,
    {
        let mut req: Vec<ClipboardContentValue> = Vec::new();
        req.push(ClipboardContentValue::Image(image.duplicate()));
        let mut vals: Vec<ClipboardContentValue> = Vec::new();
        vals.push(ClipboardContentValue::Image(image));
        proof {
            assert(req.deep_view() =~= image_request(vals@[0]->Image_0@));
            assert(vals.deep_view() =~= image_request(vals@[0]->Image_0@));
        }
        self.state.set_contents(vals);
        req
    }

    /// Write a file list: the batch stores exactly that list, in order.
    pub fn write_files(&mut self, files_path: Vec<String>) -> (req: Vec<ClipboardContentValue>)
        ensures
            req.deep_view() == files_request(files_path.deep_view()),
            final(self)@.state == set_result(files_request(files_path.deep_view())),
            final(self)@.watch == old(self)@.watch,
            final(self)@.cache == old(self)@.cache,
    {
        let mut req: Vec<ClipboardContentValue> = Vec::new();
        req.push(ClipboardContentValue::FileList(clone_strings(&files_path)));
        let mut vals: Vec<ClipboardContentValue> = Vec::new();
        vals.push(ClipboardContentValue::FileList(files_path));
        proof {
            assert(req.deep_view() =~= files_request(vals@[0]->FileList_0.deep_view()));
            assert(vals.deep_view() =~= files_request(vals@[0]->FileList_0.deep_view()));
        }
        self.state.set_contents(vals);
        req
    }

    /// Clear the clipboard: every format is absent afterwards.
    pub fn clear(&mut self)
        ensures
            final(self)@.state == empty_view(),
            final(self)@.watch == old(self)@.watch,
            final(self)@.cache == old(self)@.cache,
    {
        self.state.clear();
    }

    /// Decide an image read for a decoded clipboard image. The plan names
    /// the content-addressed file the image resolves to and whether the
    /// native layer still has to encode and write it: only when the file is
    /// not already on disk and this content was never materialized before.
    pub fn read_image(&mut self, image: &ImageData, dir: &str, on_disk: bool) -> (plan:
        ReadImagePlan)
        ensures
            plan.path@ == image_path_view(dir@, fnv1a_of(image.bytes@)),
            plan.needs_write == cache_needs_write(old(self)@.cache, fnv1a_of(image.bytes@), on_disk),
            final(self)@.cache == cache_insert(old(self)@.cache, fnv1a_of(image.bytes@)),
            plan.width == image.width,
            plan.height == image.height,
            final(self)@.state == old(self)@.state,
            final(self)@.watch == old(self)@.watch,
    {
        let path = image_cache_path(dir, image);
        let h = fnv1a64(&image.bytes);
        let needs_write = self.cache.plan_store(h, on_disk);
        ReadImagePlan { path, needs_write, width: image.width, height: image.height }
    }
}

/// Finish an image read once the native layer has materialized the file and
/// probed its size: a failed probe reports size zero.
pub fn finish_read_image(plan: ReadImagePlan, probed_size: Option<u64>) -> (r: ReadImage)
    ensures
        r.path == plan.path,
        r.width == plan.width,
        r.height == plan.height,
        r.size == crate::files::size_or_zero(probed_size),
{
    let size: u64 = match probed_size {
        Some(n) => n,
        None => 0,
    };
    ReadImage { path: plan.path, width: plan.width, height: plan.height, size }
}

/// The character content of a textual value; an image or file list carries
/// none.
pub open spec fn string_of(cv: ContentView) -> Option<Seq<char>> {
    match cv {
        ContentView::Text(s) => Some(s),
        ContentView::Rtf(s) => Some(s),
        ContentView::Html(s) => Some(s),
        ContentView::Image(_) => None,
        ContentView::FileList(_) => None,
    }
}

/// The first textual value of the requested format in a batch, if any.
pub open spec fn first_string_match(cvs: Seq<ContentView>, format: ClipboardFormat) -> Option<
    Seq<char>,
>
    decreases cvs.len(),
{
    if cvs.len() == 0 {
        None
    } else if format_of_view(cvs[0]) == format && string_of(cvs[0]) is Some {
        string_of(cvs[0])
    } else {
        first_string_match(cvs.drop_first(), format)
    }
}

/// Extract the single textual value of the requested format from the batch
/// a clipboard get returned, or fail with `FormatNotPresent` when the batch
/// holds none (absent or mismatched).
pub fn extract_single(values: &Vec<ClipboardContentValue>, format: ClipboardFormat) -> (r: Result<
    String,
    ClipboardError,
>)
    ensures
        first_string_match(values.deep_view(), format) is Some ==> r is Ok && r->Ok_0@
            == first_string_match(values.deep_view(), format)->0,
        first_string_match(values.deep_view(), format) is None ==> r == Err::<
            String,
            ClipboardError,
        >(ClipboardError::FormatNotPresent),
{
    let ghost dv: Seq<ContentView> = values.deep_view();
    proof {
        assert(dv.skip(0) =~= dv);
    }
    let mut i: usize = 0;
    while i < values.len()
        invariant
            i <= values.len(),
            dv == values.deep_view(),
            first_string_match(dv, format) == first_string_match(dv.skip(i as int), format),
        decreases values.len() - i,
    {
        proof {
            assert(dv.skip(i as int)[0] == dv[i as int]);
            assert(dv.skip(i as int).drop_first() =~= dv.skip(i + 1 as int));
        }
        let matches_format = values[i].format_of() == format;
        if matches_format {
            match &values[i] {
                ClipboardContentValue::Text(s) => {
                    return Ok(s.clone());
                },
                ClipboardContentValue::Rtf(s) => {
                    return Ok(s.clone());
                },
                ClipboardContentValue::Html(s) => {
                    return Ok(s.clone());
                },
                ClipboardContentValue::Image(_) => {},
                ClipboardContentValue::FileList(_) => {},
            }
        }
        i = i + 1;
    }
    proof {
        assert(dv.skip(values@.len() as int) =~= Seq::<ContentView>::empty());
    }
    Err(ClipboardError::FormatNotPresent)
}

/// The default cache directory under the application data directory.
pub fn get_file_path(data_dir: &str) -> (r: String)
    ensures
        r@ == data_dir@ + "/tauri-plugin-clipboard-next/file"@,
{
    String::from_str(data_dir).concat("/tauri-plugin-clipboard-next/file")
}

} // verus!
