//! A request builder for adding a sticker to a sticker set owned by a user.
//! Pure payload assembly: each setter replaces one field and leaves the
//! others alone; the network transport that eventually carries the request
//! lives outside the verified core.

use vstd::prelude::*;

verus! {

/// A file to upload: either one already stored remotely, referred to by its
/// id, or one the remote should download from a URL.
#[derive(Clone, Debug, PartialEq, Eq)]
pub enum InputFile {
    /// An id of a file that already exists on the remote servers.
    FileId(String),
    /// An HTTP URL for the remote to get the file from.
    Url(String),
}

/// The facial landmark a mask is placed relative to.
#[derive(Clone, Copy, Debug, PartialEq, Eq, Structural)]
pub enum MaskPoint {
    Forehead,
    Eyes,
    Mouth,
    Chin,
}

/// Where a mask sticker sits on a face. Shifts and scale are fixed-point
/// values in millionths (one million stands for 1.0), measured in mask
/// widths and heights as the remote API defines them.
#[derive(Clone, Copy, Debug, PartialEq, Eq, Structural)]
pub struct MaskPosition {
    /// The landmark the mask is placed relative to.
    pub point: MaskPoint,
    /// Horizontal shift, in millionths of the mask width.
    pub x_shift_micros: i64,
    /// Vertical shift, in millionths of the mask height.
    pub y_shift_micros: i64,
    /// Scaling factor, in millionths.
    pub scale_micros: i64,
}

/// A request to add a new sticker to a set created by the requesting bot.
#[derive(Clone, Debug)]
pub struct AddStickerToSet {
    /// User identifier of the sticker set owner.
    pub user_id: i32,
    /// Sticker set name.
    pub name: String,
    /// The sticker image, up to the remote API's size limits.
    pub png_sticker: InputFile,
    /// One or more emoji corresponding to the sticker.
    pub emojis: String,
    /// Where the mask should be placed on faces, for mask stickers.
    pub mask_position: Option<MaskPosition>,
}

impl AddStickerToSet {
    /// Builds the request with its required fields; the mask position is
    /// left unset.
    pub fn new(user_id: i32, name: String, png_sticker: InputFile, emojis: String) -> (r: Self)
        ensures
            r.user_id == user_id,
            r.name == name,
            r.png_sticker == png_sticker,
            r.emojis == emojis,
            r.mask_position is None,
    {
        AddStickerToSet { user_id, name, png_sticker, emojis, mask_position: Option::None }
    }

    /// Replaces the user identifier of the sticker set owner.
    pub fn user_id(self, val: i32) -> (r: Self)
        ensures
            r.user_id == val,
            r.name == self.name,
            r.png_sticker == self.png_sticker,
            r.emojis == self.emojis,
            r.mask_position == self.mask_position,
    {
        let mut this = self;
        this.user_id = val;
        this
    }

    /// Replaces the sticker set name.
    pub fn name(self, val: String) -> (r: Self)
        ensures
            r.user_id == self.user_id,
            r.name == val,
            r.png_sticker == self.png_sticker,
            r.emojis == self.emojis,
            r.mask_position == self.mask_position,
    {
        let mut this = self;
        this.name = val;
        this
    }

    /// Replaces the sticker image.
    pub fn png_sticker(self, val: InputFile) -> (r: Self)
        ensures
            r.user_id == self.user_id,
            r.name == self.name,
            r.png_sticker == val,
            r.emojis == self.emojis,
            r.mask_position == self.mask_position,
    {
        let mut this = self;
        this.png_sticker = val;
        this
    }

    /// Replaces the emoji corresponding to the sticker.
    pub fn emojis(self, val: String) -> (r: Self)
        ensures
            r.user_id == self.user_id,
            r.name == self.name,
            r.png_sticker == self.png_sticker,
            r.emojis == val,
            r.mask_position == self.mask_position,
    {
        let mut this = self;
        this.emojis = val;
        this
    }

    /// Sets where the mask should be placed on faces.
    pub fn mask_position(self, val: MaskPosition) -> (r: Self)
        ensures
            r.user_id == self.user_id,
            r.name == self.name,
            r.png_sticker == self.png_sticker,
            r.emojis == self.emojis,
            r.mask_position == Option::Some(val),
    {
        let mut this = self;
        this.mask_position = Option::Some(val);
        this
    }
}

} // verus!
