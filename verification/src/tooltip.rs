//! The text record that the platform hands over when it asks a control for
//! the text of its tooltip.

use vstd::prelude::*;
use crate::text::{lemma_utf16_len, single_units, to_utf16, utf16};

verus! {

/// The number of UTF-16 units in the platform's text record, the
/// terminator included.
pub const TEXT_UNITS: usize = 80;

/// The longest text, in UTF-16 units, that `set_text` takes: what the
/// buffer holds beside the terminator. For a text of characters below
/// U+10000 that is 79 characters.
pub const MAX_TEXT: usize = 79;

/// The flag that tells the platform to keep the text and not to ask again.
pub const TTF_DI_SETITEM: u32 = 0x8000;

/// The content of a tooltip record: the units of its text buffer and its
/// flags.
pub struct ToolTip {
    pub text: Seq<u16>,
    pub flags: u32,
}

/// The buffer that holds `s`: its UTF-16 units, then zeros up to the
/// buffer's length.
pub open spec fn buffer_of(s: Seq<char>) -> Seq<u16> {
    Seq::new(
        TEXT_UNITS as nat,
        |i: int|
            if i < utf16(s).len() {
                utf16(s)[i]
            } else {
                0u16
            },
    )
}

/// True when `set_text` takes a text: it has at most 79 UTF-16 units, so
/// that it fits the buffer together with its terminator.
pub open spec fn fits(s: Seq<char>) -> bool {
    utf16(s).len() <= MAX_TEXT
}

/// A text of more than 79 characters is never taken, and a text of at most
/// 79 characters is taken where each of them lies below U+10000.
pub proof fn law_fits_by_characters(s: Seq<char>)
    ensures
        s.len() > MAX_TEXT ==> !fits(s),
        s.len() <= MAX_TEXT && single_units(s) ==> fits(s),
{
    lemma_utf16_len(s);
}

/// The tooltip record of one notification. The dispatcher makes it from the
/// platform's record before the callback runs and writes it back after.
#[derive(Debug)]
pub struct ToolTipTextData {
    text: [u16; 80],
    flags: u32,
}

impl View for ToolTipTextData {
    type V = ToolTip;

    closed spec fn view(&self) -> ToolTip {
        ToolTip { text: self.text@, flags: self.flags }
    }
}

impl ToolTipTextData {
    /// The record with this buffer and these flags.
    pub fn new(text: [u16; 80], flags: u32) -> (data: ToolTipTextData)
        ensures
            data@ == (ToolTip { text: text@, flags }),
    {
        ToolTipTextData { text, flags }
    }

    /// The text buffer.
    pub fn text(&self) -> (text: [u16; 80])
        ensures
            text@ == self@.text,
    {
        self.text
    }

    /// The flags.
    pub fn flags(&self) -> (flags: u32)
        ensures
            flags == self@.flags,
    {
        self.flags
    }

    /// Tells the platform whether to keep the text, so that it does not ask
    /// for it again, by setting or clearing one flag. The other flags and the
    /// text stay.
    pub fn keep(&mut self, keep: bool)
        ensures
            final(self)@.text == old(self)@.text,
            final(self)@.flags == if keep {
                old(self)@.flags | TTF_DI_SETITEM
            } else {
                old(self)@.flags & !TTF_DI_SETITEM
            },
    {
        if keep {
            self.flags = self.flags | TTF_DI_SETITEM;
        } else {
            self.flags = self.flags & !TTF_DI_SETITEM;
        }
    }

    /// Sets the text of the tooltip. A text of more than 79 UTF-16 units is
    /// not taken, and the record stays as it was. Otherwise the buffer is
    /// cleared first, so that nothing of a longer text stays behind, and the
    /// units of `text` are written from its start.
    pub fn set_text(&mut self, text: &str)
        ensures
            final(self)@.flags == old(self)@.flags,
            fits(text@) ==> final(self)@.text == buffer_of(text@),
            !fits(text@) ==> final(self)@.text == old(self)@.text,
    {
        let units: Vec<u16> = to_utf16(text);
        let n: usize = units.len();
        if n > MAX_TEXT {
            return ;
        }
        self.clear();
        let mut i: usize = 0;
        while i < n
            invariant
                n == units@.len(),
                n <= MAX_TEXT,
                i <= n,
                self.flags == old(self).flags,
                forall|j: int| 0 <= j < i ==> self.text@[j] == units@[j],
                forall|j: int| i <= j < TEXT_UNITS ==> self.text@[j] == 0u16,
            decreases n - i,
        {
            self.text[i] = units[i];
            i = i + 1;
        }
        assert(self.text@ =~= buffer_of(text@));
    }

    /// Fills the text buffer with zeros.
    fn clear(&mut self)
        ensures
            final(self).flags == old(self).flags,
            forall|j: int| 0 <= j < TEXT_UNITS ==> final(self).text@[j] == 0u16,
    {
        self.text = [0u16;80];
    }
}

} // verus!
