//! The fragment shader's text, where it came from, and whether it has
//! changed since the last compilation attempt.

use vstd::prelude::*;

verus! {

/// Where the shader text came from.
#[derive(Clone, Debug, PartialEq, Eq)]
pub enum Origin {
    /// The default text built into the program.
    Embedded,
    /// Text typed into the editor.
    Editor,
    /// The contents of the file at this path.
    ExternalFile(String),
}

/// An `Origin` with its path as a sequence of characters.
pub enum OriginView {
    Embedded,
    Editor,
    ExternalFile(Seq<char>),
}

impl View for Origin {
    type V = OriginView;

    open spec fn view(&self) -> OriginView {
        match self {
            Origin::Embedded => OriginView::Embedded,
            Origin::Editor => OriginView::Editor,
            Origin::ExternalFile(path) => OriginView::ExternalFile(path@),
        }
    }
}

/// What a `ShaderSource` holds.
pub struct SourceState {
    /// The shader text.
    pub text: Seq<char>,
    /// Where the text came from.
    pub origin: OriginView,
    /// Whether a compilation attempt is due.
    pub dirty: bool,
}

impl SourceState {
    /// The source after its text was replaced, by an edit or by reading its
    /// file again: the origin stays, an attempt is due.
    pub open spec fn with_text(self, text: Seq<char>) -> SourceState {
        SourceState { text, origin: self.origin, dirty: true }
    }

    /// The source after the file at `path` was loaded into it.
    pub open spec fn with_file(self, path: Seq<char>, text: Seq<char>) -> SourceState {
        SourceState { text, origin: OriginView::ExternalFile(path), dirty: true }
    }

    /// The source with its dirty flag set to `dirty`.
    pub open spec fn with_dirty(self, dirty: bool) -> SourceState {
        SourceState { text: self.text, origin: self.origin, dirty }
    }
}

/// The text of the fragment shader with its provenance and a dirty flag.
#[derive(Clone, Debug, PartialEq, Eq)]
pub struct ShaderSource {
    text: String,
    origin: Origin,
    dirty: bool,
}

impl View for ShaderSource {
    type V = SourceState;

    closed spec fn view(&self) -> SourceState {
        SourceState { text: self.text@, origin: self.origin@, dirty: self.dirty }
    }
}

impl ShaderSource {
    /// A source that holds `text` from `origin`. It starts dirty: nothing
    /// has been compiled yet.
    pub fn new(text: String, origin: Origin) -> (source: ShaderSource)
        ensures
            source@ == (SourceState { text: text@, origin: origin@, dirty: true }),
    {
        ShaderSource { text, origin, dirty: true }
    }

    /// Replaces the text, as an edit or a repeated read of the file does.
    pub fn set_text(&mut self, text: String)
        ensures
            final(self)@ == old(self)@.with_text(text@),
    {
        self.text = text;
        self.dirty = true;
    }

    /// Replaces the text by the contents of the file at `path`.
    pub fn load_file(&mut self, path: String, text: String)
        ensures
            final(self)@ == old(self)@.with_file(path@, text@),
    {
        self.text = text;
        self.origin = Origin::ExternalFile(path);
        self.dirty = true;
    }

    /// Marks that a compilation attempt is due.
    pub fn mark_dirty(&mut self)
        ensures
            final(self)@ == old(self)@.with_dirty(true),
    {
        self.dirty = true;
    }

    /// Marks that no compilation attempt is due.
    pub fn mark_clean(&mut self)
        ensures
            final(self)@ == old(self)@.with_dirty(false),
    {
        self.dirty = false;
    }

    /// The shader text.
    pub fn text(&self) -> (text: &String)
        ensures
            text@ == self@.text,
    {
        &self.text
    }

    /// Where the text came from.
    pub fn origin(&self) -> (origin: &Origin)
        ensures
            origin@ == self@.origin,
    {
        &self.origin
    }

    /// Whether a compilation attempt is due.
    pub fn is_dirty(&self) -> (dirty: bool)
        ensures
            dirty == self@.dirty,
    {
        self.dirty
    }
}

} // verus!
