//! How far the font has come on its way to an atlas, and what the scene holds already.

use vstd::prelude::*;

verus! {

/// The stages of the font, from nothing asked to an atlas published.
#[derive(Clone, Copy, Debug, PartialEq, Eq, Structural)]
pub enum FontStage {
    /// Nothing has been asked of the loader.
    Unloaded,
    /// The file is asked for and has not arrived.
    Loading,
    /// The bytes are here and the atlas is being built from them.
    Decoding,
    /// The atlas is built; cells can be placed.
    Ready,
    /// The bytes were no font. Nothing is tried again.
    Failed,
}

/// What happened outside.
#[derive(Clone, Copy, Debug, PartialEq, Eq, Structural)]
pub enum FontEvent {
    /// The program starts.
    Startup,
    /// The loader was asked whether the bytes are here.
    Polled { loaded: bool },
    /// Decoding has ended, well or not.
    Decoded { ok: bool },
}

/// What is to be done outside.
#[derive(Clone, Copy, Debug, PartialEq, Eq, Structural)]
pub enum FontAction {
    Nothing,
    /// Ask the loader for the font file.
    Load,
    /// Build the atlas from the bytes.
    Decode,
    /// Hand the atlas to the placement of cells.
    Publish,
    /// Tell of a font that could not be decoded.
    Report,
}

impl FontStage {
    /// The stage after `event`, and what the event asks for. An event that
    /// the stage does not wait for changes nothing.
    pub open spec fn next(self, event: FontEvent) -> (FontStage, FontAction) {
        match (self, event) {
            (FontStage::Unloaded, FontEvent::Startup) => (FontStage::Loading, FontAction::Load),
            (FontStage::Loading, FontEvent::Polled { loaded: true }) => (
                FontStage::Decoding,
                FontAction::Decode,
            ),
            (FontStage::Decoding, FontEvent::Decoded { ok: true }) => (
                FontStage::Ready,
                FontAction::Publish,
            ),
            (FontStage::Decoding, FontEvent::Decoded { ok: false }) => (
                FontStage::Failed,
                FontAction::Report,
            ),
            _ => (self, FontAction::Nothing),
        }
    }

    /// The bytes of the font have arrived.
    pub open spec fn spec_font_loaded(self) -> bool {
        self == FontStage::Decoding || self == FontStage::Ready || self == FontStage::Failed
    }

    /// The stage waits for the font's bytes, or holds them undecoded.
    pub open spec fn spec_awaits_bytes(self) -> bool {
        self == FontStage::Loading || self == FontStage::Decoding
    }

    /// Tells whether a cycle of building would use the font's bytes.
    pub fn awaits_bytes(self) -> (awaits: bool)
        ensures
            awaits == self.spec_awaits_bytes(),
    {
        match self {
            FontStage::Loading => true,
            FontStage::Decoding => true,
            _ => false,
        }
    }

    pub fn step(self, event: FontEvent) -> (after: (FontStage, FontAction))
        ensures
            after == self.next(event),
    {
        match (self, event) {
            (FontStage::Unloaded, FontEvent::Startup) => (FontStage::Loading, FontAction::Load),
            (FontStage::Loading, FontEvent::Polled { loaded: true }) => (
                FontStage::Decoding,
                FontAction::Decode,
            ),
            (FontStage::Decoding, FontEvent::Decoded { ok: true }) => (
                FontStage::Ready,
                FontAction::Publish,
            ),
            (FontStage::Decoding, FontEvent::Decoded { ok: false }) => (
                FontStage::Failed,
                FontAction::Report,
            ),
            _ => (self, FontAction::Nothing),
        }
    }

    /// An atlas is published only on leaving `Decoding` for `Ready`, and a
    /// font that is ready or has failed stays so: the atlas is built at most once.
    pub proof fn lemma_built_once(self, event: FontEvent)
        ensures
            self.next(event).1 == FontAction::Publish ==> self == FontStage::Decoding
                && self.next(event).0 == FontStage::Ready,
            self.next(event).0 == FontStage::Ready ==> self == FontStage::Ready
                || self.next(event).1 == FontAction::Publish,
            self == FontStage::Ready || self == FontStage::Failed ==> self.next(event) == (
                self,
                FontAction::Nothing,
            ),
    {
    }
}

/// What the program keeps between cycles.
#[derive(Clone, Copy, Debug, PartialEq, Eq, Structural)]
pub struct State {
    pub font: FontStage,
    pub tiles_added: bool,
}

impl State {
    /// Takes `event` in and tells what it asks for.
    pub fn handle(&mut self, event: FontEvent) -> (action: FontAction)
        ensures
            (final(self).font, action) == old(self).font.next(event),
            final(self).tiles_added == old(self).tiles_added,
    {
        let (font, action) = self.font.step(event);
        self.font = font;
        action
    }

    /// Tells whether the bytes of the font have arrived.
    pub fn font_loaded(&self) -> (loaded: bool)
        ensures
            loaded == self.font.spec_font_loaded(),
    {
        match self.font {
            FontStage::Decoding => true,
            FontStage::Ready => true,
            FontStage::Failed => true,
            _ => false,
        }
    }
}

impl Default for State {
    /// Nothing loaded, nothing placed.
    fn default() -> (state: State)
        ensures
            state == (State { font: FontStage::Unloaded, tiles_added: false }),
    {
        State { font: FontStage::Unloaded, tiles_added: false }
    }
}

} // verus!
