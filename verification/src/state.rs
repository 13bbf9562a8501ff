use vstd::prelude::*;

use crate::content::ClipboardContentValue;
use crate::content::ClipboardFormat;
use crate::content::ContentView;
use crate::content::ImageData;
use crate::content::clone_strings;
use crate::content::ImageView;
use crate::error::ClipboardError;

verus! {

/// Mathematical model of the clipboard content: one optional slot per format.
pub struct StateView {
    pub text: Option<Seq<char>>,
    pub rtf: Option<Seq<char>>,
    pub html: Option<Seq<char>>,
    pub image: Option<ImageView>,
    pub files: Option<Seq<Seq<char>>>,
}

/// The state with every slot empty.
pub open spec fn empty_view() -> StateView {
    StateView { text: None, rtf: None, html: None, image: None, files: None }
}

/// Storing one value fills the slot of its format and leaves the others.
pub open spec fn apply_value(sv: StateView, cv: ContentView) -> StateView {
    match cv {
        ContentView::Text(s) => StateView { text: Some(s), ..sv },
        ContentView::Rtf(s) => StateView { rtf: Some(s), ..sv },
        ContentView::Html(s) => StateView { html: Some(s), ..sv },
        ContentView::Image(img) => StateView { image: Some(img), ..sv },
        ContentView::FileList(paths) => StateView { files: Some(paths), ..sv },
    }
}

/// Storing a batch fills the slots left to right; a later value of the same
/// format wins.
pub open spec fn apply_values(sv: StateView, cvs: Seq<ContentView>) -> StateView
    decreases cvs.len(),
{
    if cvs.len() == 0 {
        sv
    } else {
        apply_values(apply_value(sv, cvs[0]), cvs.drop_first())
    }
}

/// The state after a whole-clipboard set: a set replaces every format, so the
/// batch is applied to the empty state.
pub open spec fn set_result(cvs: Seq<ContentView>) -> StateView {
    apply_values(empty_view(), cvs)
}

/// Whether the slot of the given format is filled.
pub open spec fn present(sv: StateView, format: ClipboardFormat) -> bool {
    match format {
        ClipboardFormat::Text => sv.text is Some,
        ClipboardFormat::Rtf => sv.rtf is Some,
        ClipboardFormat::Html => sv.html is Some,
        ClipboardFormat::Image => sv.image is Some,
        ClipboardFormat::FileList => sv.files is Some,
    }
}

/// The values a get over the given formats returns: the filled slots among
/// the requested formats, in request order; absent formats are skipped.
pub open spec fn contents_for(sv: StateView, formats: Seq<ClipboardFormat>) -> Seq<ContentView>
    decreases formats.len(),
{
    if formats.len() == 0 {
        Seq::empty()
    } else {
        slot_contents(sv, formats[0]) + contents_for(sv, formats.drop_first())
    }
}

/// A get over one more format appends that format's slot content.
pub proof fn lemma_contents_for_push(
    sv: StateView,
    formats: Seq<ClipboardFormat>,
    format: ClipboardFormat,
)
    ensures
        contents_for(sv, formats.push(format)) == contents_for(sv, formats) + slot_contents(
            sv,
            format,
        ),
    decreases formats.len(),
{
    let pushed = formats.push(format);
    if formats.len() == 0 {
        assert(pushed.drop_first() =~= Seq::<ClipboardFormat>::empty());
        assert(contents_for(sv, pushed.drop_first()) =~= Seq::<ContentView>::empty());
        assert(contents_for(sv, pushed) =~= contents_for(sv, formats) + slot_contents(sv, format));
    } else {
        assert(pushed.drop_first() =~= formats.drop_first().push(format));
        lemma_contents_for_push(sv, formats.drop_first(), format);
        assert(contents_for(sv, pushed) =~= contents_for(sv, formats) + slot_contents(sv, format));
    }
}

/// The content of one slot as a sequence: one tagged value, or empty.
pub open spec fn slot_contents(sv: StateView, format: ClipboardFormat) -> Seq<ContentView> {
    match format {
        ClipboardFormat::Text => match sv.text {
            Some(s) => seq![ContentView::Text(s)],
            None => Seq::empty(),
        },
        ClipboardFormat::Rtf => match sv.rtf {
            Some(s) => seq![ContentView::Rtf(s)],
            None => Seq::empty(),
        },
        ClipboardFormat::Html => match sv.html {
            Some(s) => seq![ContentView::Html(s)],
            None => Seq::empty(),
        },
        ClipboardFormat::Image => match sv.image {
            Some(img) => seq![ContentView::Image(img)],
            None => Seq::empty(),
        },
        ClipboardFormat::FileList => match sv.files {
            Some(paths) => seq![ContentView::FileList(paths)],
            None => Seq::empty(),
        },
    }
}

/// The coordinated view of the clipboard content: one slot per format. The
/// native clipboard handle itself lives outside the library; this store keeps
/// the model that the service contracts speak of.
pub struct ClipboardState {
    text: Option<String>,
    rtf: Option<String>,
    html: Option<String>,
    image: Option<ImageData>,
    files: Option<Vec<String>>,
}

impl View for ClipboardState {
    type V = StateView;

    closed spec fn view(&self) -> StateView {
        StateView {
            text: match self.text {
                Some(ref s) => Some(s@),
                None => None,
            },
            rtf: match self.rtf {
                Some(ref s) => Some(s@),
                None => None,
            },
            html: match self.html {
                Some(ref s) => Some(s@),
                None => None,
            },
            image: match self.image {
                Some(ref img) => Some(img@),
                None => None,
            },
            files: match self.files {
                Some(ref v) => Some(v.deep_view()),
                None => None,
            },
        }
    }
}

impl ClipboardState {
    /// A fresh store: every slot empty.
    pub fn new() -> (r: ClipboardState)
        ensures
            r@ == empty_view(),
    {
        ClipboardState { text: None, rtf: None, html: None, image: None, files: None }
    }

    /// Store one value into the slot of its format.
    pub fn apply(&mut self, value: ClipboardContentValue)
        ensures
            final(self)@ == apply_value(old(self)@, value@),
    {
        match value {
            ClipboardContentValue::Text(s) => {
                self.text = Some(s);
            },
            ClipboardContentValue::Rtf(s) => {
                self.rtf = Some(s);
            },
            ClipboardContentValue::Html(s) => {
                self.html = Some(s);
            },
            ClipboardContentValue::Image(img) => {
                self.image = Some(img);
            },
            ClipboardContentValue::FileList(paths) => {
                self.files = Some(paths);
            },
        }
    }

    /// Replace the whole clipboard content with the given batch: every slot
    /// is emptied, then the batch is stored left to right.
    pub fn set_contents(&mut self, values: Vec<ClipboardContentValue>)
        ensures
            final(self)@ == set_result(values.deep_view()),
    {
        self.clear();
        let mut rest = values;
        let ghost all: Seq<ContentView> = values.deep_view();
        while rest.len() > 0
            invariant
                apply_values(self@, rest.deep_view()) == set_result(all),
            decreases rest.len(),
        {
            let ghost before: Seq<ContentView> = rest.deep_view();
            let v = rest.remove(0);
            proof {
                assert(rest.deep_view() =~= before.drop_first());
                assert(before[0] == v@);
            }
            self.apply(v);
        }
        proof {
            assert(rest.deep_view() =~= Seq::<ContentView>::empty());
        }
    }

    /// Empty every slot.
    pub fn clear(&mut self)
        ensures
            final(self)@ == empty_view(),
    {
        self.text = None;
        self.rtf = None;
        self.html = None;
        self.image = None;
        self.files = None;
    }

    /// The value in the slot of the given format, if any, as fresh content.
    fn slot_value(&self, format: ClipboardFormat) -> (r: Option<ClipboardContentValue>)
        ensures
            r is Some ==> slot_contents(self@, format) == seq![r->0@],
            r is None ==> slot_contents(self@, format) == Seq::<ContentView>::empty(),
    {
        let r: Option<ClipboardContentValue> = match format {
            ClipboardFormat::Text => match &self.text {
                Some(s) => Some(ClipboardContentValue::Text(s.clone())),
                None => None,
            },
            ClipboardFormat::Rtf => match &self.rtf {
                Some(s) => Some(ClipboardContentValue::Rtf(s.clone())),
                None => None,
            },
            ClipboardFormat::Html => match &self.html {
                Some(s) => Some(ClipboardContentValue::Html(s.clone())),
                None => None,
            },
            ClipboardFormat::Image => match &self.image {
                Some(img) => Some(ClipboardContentValue::Image(img.duplicate())),
                None => None,
            },
            ClipboardFormat::FileList => match &self.files {
                Some(paths) => Some(ClipboardContentValue::FileList(clone_strings(paths))),
                None => None,
            },
        };
        proof {
            if r is Some {
                assert(slot_contents(self@, format) =~= seq![r->0@]);
            } else {
                assert(slot_contents(self@, format) =~= Seq::<ContentView>::empty());
            }
        }
        r
    }

    /// The values the clipboard holds for the requested formats, in request
    /// order; a format whose slot is empty contributes nothing.
    pub fn get_contents(&self, formats: &Vec<ClipboardFormat>) -> (r: Vec<ClipboardContentValue>)
        ensures
            r.deep_view() == contents_for(self@, formats@),
    {
        let mut r: Vec<ClipboardContentValue> = Vec::new();
        let mut i: usize = 0;
        while i < formats.len()
            invariant
                i <= formats.len(),
                r.deep_view() == contents_for(self@, formats@.take(i as int)),
            decreases formats.len() - i,
        {
            let ghost prefix: Seq<ClipboardFormat> = formats@.take(i as int);
            let ghost dv: Seq<ContentView> = r.deep_view();
            match self.slot_value(formats[i]) {
                Some(v) => {
                    let ghost vv: ContentView = v@;
                    r.push(v);
                    proof {
                        assert(r.deep_view() =~= dv.push(vv));
                    }
                },
                None => {},
            }
            proof {
                lemma_contents_for_push(self@, prefix, formats@[i as int]);
                assert(formats@.take(i + 1 as int) =~= prefix.push(formats@[i as int]));
                assert(r.deep_view() =~= contents_for(self@, formats@.take(i + 1 as int)));
            }
            i = i + 1;
        }
        proof {
            assert(formats@.take(formats@.len() as int) =~= formats@);
        }
        r
    }

    /// Whether the clipboard currently holds the given format.
    pub fn format_present(&self, format: ClipboardFormat) -> (r: bool)
        ensures
            r == present(self@, format),
    {
        match format {
            ClipboardFormat::Text => self.text.is_some(),
            ClipboardFormat::Rtf => self.rtf.is_some(),
            ClipboardFormat::Html => self.html.is_some(),
            ClipboardFormat::Image => self.image.is_some(),
            ClipboardFormat::FileList => self.files.is_some(),
        }
    }

    /// The plain-text slot, or `FormatNotPresent` when it is empty.
    pub fn read_text(&self) -> (r: Result<String, ClipboardError>)
        ensures
            self@.text is Some ==> r is Ok && r->Ok_0@ == self@.text->0,
            self@.text is None ==> r == Err::<String, ClipboardError>(
                ClipboardError::FormatNotPresent,
            ),
    {
        match &self.text {
            Some(s) => Ok(s.clone()),
            None => Err(ClipboardError::FormatNotPresent),
        }
    }

    /// The rich-text slot, or `FormatNotPresent` when it is empty.
    pub fn read_rtf(&self) -> (r: Result<String, ClipboardError>)
        ensures
            self@.rtf is Some ==> r is Ok && r->Ok_0@ == self@.rtf->0,
            self@.rtf is None ==> r == Err::<String, ClipboardError>(
                ClipboardError::FormatNotPresent,
            ),
    {
        match &self.rtf {
            Some(s) => Ok(s.clone()),
            None => Err(ClipboardError::FormatNotPresent),
        }
    }

    /// The HTML slot, or `FormatNotPresent` when it is empty.
    pub fn read_html(&self) -> (r: Result<String, ClipboardError>)
        ensures
            self@.html is Some ==> r is Ok && r->Ok_0@ == self@.html->0,
            self@.html is None ==> r == Err::<String, ClipboardError>(
                ClipboardError::FormatNotPresent,
            ),
    {
        match &self.html {
            Some(s) => Ok(s.clone()),
            None => Err(ClipboardError::FormatNotPresent),
        }
    }

    /// The file-list slot, or `FormatNotPresent` when it is empty.
    pub fn read_files_paths(&self) -> (r: Result<Vec<String>, ClipboardError>)
        ensures
            self@.files is Some ==> r is Ok && r->Ok_0.deep_view() == self@.files->0,
            self@.files is None ==> r is Err && r->Err_0 == ClipboardError::FormatNotPresent,
    {
        match &self.files {
            Some(paths) => Ok(clone_strings(paths)),
            None => Err(ClipboardError::FormatNotPresent),
        }
    }
}

} // verus!
