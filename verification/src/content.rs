use vstd::prelude::*;

verus! {

/// A named representation the system clipboard may simultaneously hold.
#[derive(Clone, Copy, Debug, PartialEq, Eq, Structural)]
pub enum ClipboardFormat {
    Text,
    Rtf,
    Html,
    Image,
    FileList,
}

/// A decoded clipboard image: raw pixel buffer plus dimensions.
pub struct ImageData {
    pub bytes: Vec<u8>,
    pub width: u32,
    pub height: u32,
}

/// Mathematical model of an [`ImageData`].
pub struct ImageView {
    pub bytes: Seq<u8>,
    pub width: u32,
    pub height: u32,
}

impl View for ImageData {
    type V = ImageView;

    open spec fn view(&self) -> ImageView {
        ImageView { bytes: self.bytes@, width: self.width, height: self.height }
    }
}

/// One piece of clipboard content, tagged by its format. Produced by reads,
/// consumed by writes; no identity beyond its value.
pub enum ClipboardContentValue {
    Text(String),
    Rtf(String),
    Html(String),
    Image(ImageData),
    FileList(Vec<String>),
}

/// Mathematical model of a [`ClipboardContentValue`].
pub enum ContentView {
    Text(Seq<char>),
    Rtf(Seq<char>),
    Html(Seq<char>),
    Image(ImageView),
    FileList(Seq<Seq<char>>),
}

impl View for ClipboardContentValue {
    type V = ContentView;

    open spec fn view(&self) -> ContentView {
        match self {
            ClipboardContentValue::Text(s) => ContentView::Text(s@),
            ClipboardContentValue::Rtf(s) => ContentView::Rtf(s@),
            ClipboardContentValue::Html(s) => ContentView::Html(s@),
            ClipboardContentValue::Image(img) => ContentView::Image(img@),
            ClipboardContentValue::FileList(paths) => ContentView::FileList(paths.deep_view()),
        }
    }
}

impl DeepView for ClipboardContentValue {
    type V = ContentView;

    open spec fn deep_view(&self) -> ContentView {
        self.view()
    }
}

/// The format a content view is tagged with.
pub open spec fn format_of_view(cv: ContentView) -> ClipboardFormat {
    match cv {
        ContentView::Text(_) => ClipboardFormat::Text,
        ContentView::Rtf(_) => ClipboardFormat::Rtf,
        ContentView::Html(_) => ClipboardFormat::Html,
        ContentView::Image(_) => ClipboardFormat::Image,
        ContentView::FileList(_) => ClipboardFormat::FileList,
    }
}

/// Copy of a byte buffer, element for element.
pub fn copy_bytes(v: &Vec<u8>) -> (r: Vec<u8>)
    ensures
        r@ == v@,
{
    let mut r: Vec<u8> = Vec::new();
    let mut i: usize = 0;
    while i < v.len()
        invariant
            i <= v.len(),
            r@ == v@.take(i as int),
        decreases v.len() - i,
    {
        r.push(v[i]);
        proof {
            assert(r@ =~= v@.take(i + 1 as int));
        }
        i = i + 1;
    }
    proof {
        assert(r@ =~= v@);
    }
    r
}

/// Copy of a vector of strings, element for element.
pub fn clone_strings(v: &Vec<String>) -> (r: Vec<String>)
    ensures
        r@ == v@,
        r.deep_view() == v.deep_view(),
{
    let mut r: Vec<String> = Vec::new();
    let mut i: usize = 0;
    while i < v.len()
        invariant
            i <= v.len(),
            r@ == v@.take(i as int),
        decreases v.len() - i,
    {
        r.push(v[i].clone());
        proof {
            assert(r@ =~= v@.take(i + 1 as int));
        }
        i = i + 1;
    }
    proof {
        assert(r@ =~= v@);
        assert(r.deep_view() =~= v.deep_view());
    }
    r
}

impl ImageData {
    /// A copy with the same pixel bytes and dimensions.
    pub fn duplicate(&self) -> (r: ImageData)
        ensures
            r@ == self@,
    {
        ImageData { bytes: copy_bytes(&self.bytes), width: self.width, height: self.height }
    }
}

impl ClipboardContentValue {
    /// A copy with the same model.
    pub fn duplicate(&self) -> (r: ClipboardContentValue)
        ensures
            r@ == self@,
    {
        match self {
            ClipboardContentValue::Text(s) => ClipboardContentValue::Text(s.clone()),
            ClipboardContentValue::Rtf(s) => ClipboardContentValue::Rtf(s.clone()),
            ClipboardContentValue::Html(s) => ClipboardContentValue::Html(s.clone()),
            ClipboardContentValue::Image(img) => ClipboardContentValue::Image(img.duplicate()),
            ClipboardContentValue::FileList(paths) => ClipboardContentValue::FileList(
                clone_strings(paths),
            ),
        }
    }

    /// The format this value is tagged with.
    pub fn format_of(&self) -> (f: ClipboardFormat)
        ensures
            f == format_of_view(self@),
    {
        match self {
            ClipboardContentValue::Text(_) => ClipboardFormat::Text,
            ClipboardContentValue::Rtf(_) => ClipboardFormat::Rtf,
            ClipboardContentValue::Html(_) => ClipboardFormat::Html,
            ClipboardContentValue::Image(_) => ClipboardFormat::Image,
            ClipboardContentValue::FileList(_) => ClipboardFormat::FileList,
        }
    }
}

} // verus!
