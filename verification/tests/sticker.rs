use teloxide::{AddStickerToSet, InputFile, MaskPoint, MaskPosition};

#[test]
fn new_sets_required_fields_and_no_mask_position() {
    let req = AddStickerToSet::new(
        7,
        String::from("animals_by_testbot"),
        InputFile::Url(String::from("https://example.com/cat.png")),
        String::from("\u{1F431}"),
    );
    assert_eq!(req.user_id, 7);
    assert_eq!(req.name, "animals_by_testbot");
    assert_eq!(req.png_sticker, InputFile::Url(String::from("https://example.com/cat.png")));
    assert_eq!(req.emojis, "\u{1F431}");
    assert_eq!(req.mask_position, None);
}

#[test]
fn each_setter_replaces_only_its_field() {
    let req = AddStickerToSet::new(
        7,
        String::from("animals_by_testbot"),
        InputFile::FileId(String::from("AAQCABO")),
        String::from("\u{1F431}"),
    );
    let mask = MaskPosition {
        point: MaskPoint::Eyes,
        x_shift_micros: -1_000_000,
        y_shift_micros: 1_000_000,
        scale_micros: 2_000_000,
    };
    let req = req
        .user_id(42)
        .name(String::from("plants_by_testbot"))
        .png_sticker(InputFile::Url(String::from("https://example.com/fern.png")))
        .emojis(String::from("\u{1F331}"))
        .mask_position(mask);
    assert_eq!(req.user_id, 42);
    assert_eq!(req.name, "plants_by_testbot");
    assert_eq!(req.png_sticker, InputFile::Url(String::from("https://example.com/fern.png")));
    assert_eq!(req.emojis, "\u{1F331}");
    assert_eq!(req.mask_position, Some(mask));
}

#[test]
fn setters_keep_untouched_fields() {
    let req = AddStickerToSet::new(
        1,
        String::from("set_by_testbot"),
        InputFile::FileId(String::from("AAQCABO")),
        String::from("\u{1F600}"),
    )
    .user_id(2);
    assert_eq!(req.user_id, 2);
    assert_eq!(req.name, "set_by_testbot");
    assert_eq!(req.png_sticker, InputFile::FileId(String::from("AAQCABO")));
    assert_eq!(req.emojis, "\u{1F600}");
    assert_eq!(req.mask_position, None);
}
