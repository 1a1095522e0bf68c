//! The now-playing panel: title, artist and cover of the track, taken from
//! its metadata tag, with a fallback for whatever the tag lacks.

use vstd::prelude::*;
use crate::layout::{centered_offset, Rect};

verus! {

/// `lofty::tag::Tag`, a parsed metadata tag: items of text and pictures.
/// What it holds is known through `tag_texts` and `tag_pictures` alone.
#[verifier::external_type_specification]
#[verifier::external_body]
pub struct ExTag(lofty::tag::Tag);

/// `lofty::file::TaggedFile`, a parsed audio file with its tags. What it
/// holds is known through `file_tags`, `file_primary_tag` and
/// `file_is_custom` alone.
#[verifier::external_type_specification]
#[verifier::external_body]
pub struct ExTaggedFile(lofty::file::TaggedFile);

/// Height of the title and artist lines.
pub const TEXT_HEIGHT: i32 = 20;

/// How much wider than its text a title or artist line is made.
pub const TEXT_PADDING: i32 = 10;

/// What a picture in a tag shows, as far as the panel cares.
#[derive(Clone, Copy, Debug, PartialEq, Eq, Structural)]
pub enum PictureKind {
    /// The front cover.
    CoverFront,
    /// Anything else: the artist, the back cover, a logo.
    Other,
}

/// The image format that a picture declares.
#[derive(Clone, Copy, Debug, PartialEq, Eq, Structural)]
pub enum ImageFormat {
    Png,
    Jpeg,
    Tiff,
    Bmp,
    Gif,
    Unknown,
}

/// A picture taken out of a tag.
#[derive(Clone, Debug, PartialEq, Eq)]
pub struct Picture {
    pub kind: PictureKind,
    /// `None` where the picture declares no format.
    pub format: Option<ImageFormat>,
    pub data: Vec<u8>,
}

/// A picture as the contracts see it.
pub struct PictureView {
    pub kind: PictureKind,
    pub format: Option<ImageFormat>,
    pub data: Seq<u8>,
}

impl View for Picture {
    type V = PictureView;

    open spec fn view(&self) -> PictureView {
        PictureView { kind: self.kind, format: self.format, data: self.data@ }
    }
}

/// The cover to show.
#[derive(Clone, Debug, PartialEq, Eq)]
pub enum Cover {
    /// The player's own default cover.
    Default,
    /// The bytes of a PNG image.
    Png(Vec<u8>),
    /// The bytes of a JPEG image.
    Jpeg(Vec<u8>),
}

/// A cover as the contracts see it.
pub enum CoverChoice {
    Default,
    Png(Seq<u8>),
    Jpeg(Seq<u8>),
}

impl View for Cover {
    type V = CoverChoice;

    open spec fn view(&self) -> CoverChoice {
        match *self {
            Cover::Default => CoverChoice::Default,
            Cover::Png(data) => CoverChoice::Png(data@),
            Cover::Jpeg(data) => CoverChoice::Jpeg(data@),
        }
    }
}

/// Why a file's metadata could not be used.
#[derive(Clone, Copy, Debug, PartialEq, Eq, Structural)]
pub enum MetadataError {
    /// The file holds no tag at all.
    NoTag,
}

/// The text items of a tag that the panel reads.
pub enum TextKey {
    /// The title of the track.
    Title,
    /// The artist of the track.
    Artist,
}

/// The text items of a tag: under each key the text of the tag's first
/// item with that key, where that item is text. A key whose first item is
/// not text, or that the tag does not hold, is not in the map.
pub uninterp spec fn tag_texts(tag: lofty::tag::Tag) -> Map<TextKey, Seq<char>>;

/// The text that a tag holds under `key`, if it holds any.
pub open spec fn tag_text(tag: lofty::tag::Tag, key: TextKey) -> Option<Seq<char>> {
    if tag_texts(tag).contains_key(key) {
        Some(tag_texts(tag)[key])
    } else {
        None
    }
}

/// The title text of a tag, if it has one.
pub open spec fn tag_title(tag: lofty::tag::Tag) -> Option<Seq<char>> {
    tag_text(tag, TextKey::Title)
}

/// The artist text of a tag, if it has one.
pub open spec fn tag_artist(tag: lofty::tag::Tag) -> Option<Seq<char>> {
    tag_text(tag, TextKey::Artist)
}

/// The pictures of a tag, in the order in which the tag holds them.
pub uninterp spec fn tag_pictures(tag: lofty::tag::Tag) -> Seq<PictureView>;

/// The tags of a file, in the order in which the file holds them.
pub uninterp spec fn file_tags(file: lofty::file::TaggedFile) -> Seq<lofty::tag::Tag>;

/// The tag of the kind that is primary for the file's format, if the file
/// holds one. It is spoken of only for files of a built-in format.
pub uninterp spec fn file_primary_tag(file: lofty::file::TaggedFile) -> Option<lofty::tag::Tag>;

/// Whether the file's format is a custom one, which only a resolver
/// registered with the tag reader knows.
pub uninterp spec fn file_is_custom(file: lofty::file::TaggedFile) -> bool;

/// The views of a list of pictures.
pub open spec fn picture_views(pictures: Seq<Picture>) -> Seq<PictureView> {
    pictures.map_values(|p: Picture| p@)
}

/// The text of an optional string.
pub open spec fn text_of(text: Option<String>) -> Option<Seq<char>> {
    match text {
        Some(t) => Some(t@),
        None => None,
    }
}

/// The title to show: the tag's own, or the fallback.
pub open spec fn title_or_default(title: Option<Seq<char>>) -> Seq<char> {
    match title {
        Some(t) => t,
        None => "Untitled audio"@,
    }
}

/// The artist to show: the tag's own, or the fallback.
pub open spec fn artist_or_default(artist: Option<Seq<char>>) -> Seq<char> {
    match artist {
        Some(a) => a,
        None => "No artist"@,
    }
}

/// The tag to read: the primary one, or else the first.
pub open spec fn selected_tag<T>(primary: Option<T>, first: Option<T>) -> Option<T> {
    if primary is Some {
        primary
    } else {
        first
    }
}

/// The tag to read from a parsed file: its primary tag, or else its first.
/// Of a file in a custom format the first tag is read: which kind of tag is
/// primary there is known to a registered resolver alone.
pub open spec fn file_tag(file: lofty::file::TaggedFile) -> Option<lofty::tag::Tag> {
    if file_is_custom(file) {
        first_of(file_tags(file))
    } else {
        selected_tag(file_primary_tag(file), first_of(file_tags(file)))
    }
}

/// The first tag of a list, if there is one.
pub open spec fn first_of<T>(tags: Seq<T>) -> Option<T> {
    if tags.len() > 0 {
        Some(tags[0])
    } else {
        None
    }
}

/// The index of the first front cover at or after `from`.
pub open spec fn first_front_cover(pictures: Seq<PictureView>, from: int) -> Option<int>
    decreases pictures.len() - from,
{
    if from < 0 || from >= pictures.len() {
        None
    } else if pictures[from].kind == PictureKind::CoverFront {
        Some(from)
    } else {
        first_front_cover(pictures, from + 1)
    }
}

/// The cover that one picture gives: its bytes where it declares PNG or
/// JPEG, the default for any other format and for none.
pub open spec fn cover_of(format: Option<ImageFormat>, data: Seq<u8>) -> CoverChoice {
    match format {
        Some(ImageFormat::Png) => CoverChoice::Png(data),
        Some(ImageFormat::Jpeg) => CoverChoice::Jpeg(data),
        _ => CoverChoice::Default,
    }
}

/// The cover for a list of pictures: that of the first front cover among
/// them, and the default where there is none.
pub open spec fn cover_choice(pictures: Seq<PictureView>) -> CoverChoice {
    match first_front_cover(pictures, 0) {
        Some(i) => cover_of(pictures[i].format, pictures[i].data),
        None => CoverChoice::Default,
    }
}

/// `lofty::tag::Accessor::title` on a `Tag`: a copy of the text of the
/// tag's first title item, if the tag has one and it is text.
#[verifier::external_body]
fn title_of(tag: &lofty::tag::Tag) -> (title: Option<String>)
    ensures
        title is Some == tag_texts(*tag).contains_key(TextKey::Title),
        title is Some ==> title->0@ == tag_texts(*tag)[TextKey::Title],
{
    match lofty::tag::Accessor::title(tag) {
        Some(text) => Some(text.into_owned()),
        None => None,
    }
}

/// `lofty::tag::Accessor::artist` on a `Tag`: a copy of the text of the
/// tag's first artist item, if the tag has one and it is text.
#[verifier::external_body]
fn artist_of(tag: &lofty::tag::Tag) -> (artist: Option<String>)
    ensures
        artist is Some == tag_texts(*tag).contains_key(TextKey::Artist),
        artist is Some ==> artist->0@ == tag_texts(*tag)[TextKey::Artist],
{
    match lofty::tag::Accessor::artist(tag) {
        Some(text) => Some(text.into_owned()),
        None => None,
    }
}

/// `lofty::tag::Tag::pictures`: how many pictures the tag holds.
#[verifier::external_body]
fn picture_len(tag: &lofty::tag::Tag) -> (len: usize)
    ensures
        len == tag_pictures(*tag).len(),
{
    tag.pictures().len()
}

/// `lofty::picture::Picture::pic_type` of the tag's picture at `index`:
/// whether it is the front cover.
#[verifier::external_body]
fn picture_kind(tag: &lofty::tag::Tag, index: usize) -> (kind: PictureKind)
    requires
        index < tag_pictures(*tag).len(),
    ensures
        kind == tag_pictures(*tag)[index as int].kind,
{
    match tag.pictures()[index].pic_type() {
        lofty::picture::PictureType::CoverFront => PictureKind::CoverFront,
        _ => PictureKind::Other,
    }
}

/// `lofty::picture::Picture::mime_type` of the tag's picture at `index`.
#[verifier::external_body]
fn picture_format(tag: &lofty::tag::Tag, index: usize) -> (format: Option<ImageFormat>)
    requires
        index < tag_pictures(*tag).len(),
    ensures
        format == tag_pictures(*tag)[index as int].format,
{
    match tag.pictures()[index].mime_type() {
        None => None,
        Some(lofty::picture::MimeType::Png) => Some(ImageFormat::Png),
        Some(lofty::picture::MimeType::Jpeg) => Some(ImageFormat::Jpeg),
        Some(lofty::picture::MimeType::Tiff) => Some(ImageFormat::Tiff),
        Some(lofty::picture::MimeType::Bmp) => Some(ImageFormat::Bmp),
        Some(lofty::picture::MimeType::Gif) => Some(ImageFormat::Gif),
        Some(_) => Some(ImageFormat::Unknown),
    }
}

/// `lofty::picture::Picture::data` of the tag's picture at `index`: a copy
/// of its bytes.
#[verifier::external_body]
fn picture_data(tag: &lofty::tag::Tag, index: usize) -> (data: Vec<u8>)
    requires
        index < tag_pictures(*tag).len(),
    ensures
        data@ == tag_pictures(*tag)[index as int].data,
{
    tag.pictures()[index].data().to_vec()
}

/// `lofty::file::TaggedFileExt::file_type`: whether the file's format is a
/// custom one.
#[verifier::external_body]
fn has_custom_type(file: &lofty::file::TaggedFile) -> (custom: bool)
    ensures
        custom == file_is_custom(*file),
{
    matches!(lofty::file::TaggedFileExt::file_type(file), lofty::file::FileType::Custom(_))
}

/// `lofty::file::TaggedFileExt::primary_tag`: a copy of the tag whose kind
/// is primary for the file's format, if the file holds one. For a custom
/// format the call asks the registry of resolvers and panics where the
/// format is not registered, so such files are left out.
#[verifier::external_body]
fn primary_tag_of(file: &lofty::file::TaggedFile) -> (tag: Option<lofty::tag::Tag>)
    requires
        !file_is_custom(*file),
    ensures
        tag == file_primary_tag(*file),
{
    lofty::file::TaggedFileExt::primary_tag(file).cloned()
}

/// `lofty::file::TaggedFileExt::first_tag`: a copy of the first of the
/// file's tags, if it holds any.
#[verifier::external_body]
fn first_tag_of(file: &lofty::file::TaggedFile) -> (tag: Option<lofty::tag::Tag>)
    ensures
        tag == first_of(file_tags(*file)),
{
    lofty::file::TaggedFileExt::first_tag(file).cloned()
}

/// The title to show for a tag's title.
pub fn title_text(title: Option<String>) -> (text: String)
    ensures
        text@ == title_or_default(text_of(title)),
{
    match title {
        Some(t) => t,
        None => "Untitled audio".to_owned(),
    }
}

/// The artist to show for a tag's artist.
pub fn artist_text(artist: Option<String>) -> (text: String)
    ensures
        text@ == artist_or_default(text_of(artist)),
{
    match artist {
        Some(a) => a,
        None => "No artist".to_owned(),
    }
}

/// The tag to read, from the file's primary tag and its first tag.
pub fn choose_tag<T>(primary: Option<T>, first: Option<T>) -> (tag: Option<T>)
    ensures
        tag == selected_tag(primary, first),
{
    match primary {
        Some(tag) => Some(tag),
        None => first,
    }
}

/// The cover that one picture gives.
pub fn cover_from(format: Option<ImageFormat>, data: Vec<u8>) -> (cover: Cover)
    ensures
        cover@ == cover_of(format, data@),
{
    match format {
        Some(ImageFormat::Png) => Cover::Png(data),
        Some(ImageFormat::Jpeg) => Cover::Jpeg(data),
        _ => Cover::Default,
    }
}

/// The cover for a list of pictures: the first front cover decides, also
/// where a later one could be shown and it cannot.
pub fn choose_cover(pictures: Vec<Picture>) -> (cover: Cover)
    ensures
        cover@ == cover_choice(picture_views(pictures@)),
{
    let ghost views = picture_views(pictures@);
    let mut left = pictures;
    let mut i: usize = 0;
    while i < left.len()
        invariant
            i <= left@.len(),
            views == picture_views(pictures@),
            views == picture_views(left@),
            first_front_cover(views, 0) == first_front_cover(views, i as int),
        decreases left@.len() - i,
    {
        assert(views[i as int] == left@[i as int]@);
        if left[i].kind == PictureKind::CoverFront {
            let chosen = left.remove(i);
            assert(first_front_cover(views, i as int) == Some(i as int));
            assert(chosen@ == views[i as int]);
            return cover_from(chosen.format, chosen.data);
        }
        i = i + 1;
    }
    Cover::Default
}

/// The place and size of a line of text `text_width` wide at `y`, centred
/// over `over`.
pub open spec fn text_line(over: Rect, y: int, text_width: int) -> Rect {
    Rect {
        x: (over.x + centered_offset(over.w as int, text_width)) as i32,
        y: y as i32,
        w: (text_width + TEXT_PADDING) as i32,
        h: TEXT_HEIGHT,
    }
}

/// Whether a line of text `text_width` wide at `y` can be placed over
/// `over` without leaving the range of the coordinates.
pub open spec fn text_line_fits(over: Rect, y: int, text_width: int) -> bool {
    &&& i32::MIN <= over.x + centered_offset(over.w as int, text_width) <= i32::MAX
    &&& i32::MIN <= y <= i32::MAX
    &&& i32::MIN <= text_width + TEXT_PADDING <= i32::MAX
}

/// What the now-playing panel shows.
#[derive(Clone, Debug, PartialEq, Eq)]
pub struct NowPlaying {
    pub title: String,
    pub artist: String,
    pub cover: Cover,
}

impl NowPlaying {
    /// What the panel shows for a tag, fallbacks included.
    pub open spec fn shows_tag(self, tag: lofty::tag::Tag) -> bool {
        &&& self.title@ == title_or_default(tag_title(tag))
        &&& self.artist@ == artist_or_default(tag_artist(tag))
        &&& self.cover@ == cover_choice(tag_pictures(tag))
    }

    /// What the panel shows where there is no tag: every fallback.
    pub open spec fn shows_fallbacks(self) -> bool {
        &&& self.title@ == "Untitled audio"@
        &&& self.artist@ == "No artist"@
        &&& self.cover@ == CoverChoice::Default
    }

    /// The panel for a parsed file: title, artist and cover of the tag that
    /// `file_tag` names. Whatever the tag lacks, and everything where the
    /// file has no tag, is the fallback.
    pub fn new(file: &lofty::file::TaggedFile) -> (panel: NowPlaying)
        ensures
            match file_tag(*file) {
                Some(tag) => panel.shows_tag(tag),
                None => panel.shows_fallbacks(),
            },
    {
        match NowPlaying::parse_file(file) {
            Ok(tag) => NowPlaying::from_tag(&tag),
            Err(_) => NowPlaying {
                title: title_text(None),
                artist: artist_text(None),
                cover: Cover::Default,
            },
        }
    }

    /// The panel for one tag.
    pub fn from_tag(tag: &lofty::tag::Tag) -> (panel: NowPlaying)
        ensures
            panel.shows_tag(*tag),
    {
        NowPlaying {
            title: NowPlaying::extract_title_from_tag(tag),
            artist: NowPlaying::extract_artist_from_tag(tag),
            cover: NowPlaying::extract_cover_image_from_tag(tag),
        }
    }

    /// The tag to read from a parsed file: its primary tag, or else its
    /// first. A file without any tag is an error.
    pub fn parse_file(file: &lofty::file::TaggedFile) -> (tag: Result<lofty::tag::Tag, MetadataError>)
        ensures
            match file_tag(*file) {
                Some(chosen) => tag == Ok::<lofty::tag::Tag, MetadataError>(chosen),
                None => tag == Err::<lofty::tag::Tag, MetadataError>(MetadataError::NoTag),
            },
    {
        let primary = if has_custom_type(file) {
            None
        } else {
            primary_tag_of(file)
        };
        let first = first_tag_of(file);
        match choose_tag(primary, first) {
            Some(tag) => Ok(tag),
            None => Err(MetadataError::NoTag),
        }
    }

    /// The title to show for a tag: its own, or `Untitled audio`.
    pub fn extract_title_from_tag(tag: &lofty::tag::Tag) -> (title: String)
        ensures
            title@ == title_or_default(tag_title(*tag)),
    {
        title_text(title_of(tag))
    }

    /// The artist to show for a tag: its own, or `No artist`.
    pub fn extract_artist_from_tag(tag: &lofty::tag::Tag) -> (artist: String)
        ensures
            artist@ == artist_or_default(tag_artist(*tag)),
    {
        artist_text(artist_of(tag))
    }

    /// The pictures of a tag, in the tag's order.
    pub fn pictures_of(tag: &lofty::tag::Tag) -> (pictures: Vec<Picture>)
        ensures
            picture_views(pictures@) == tag_pictures(*tag),
    {
        let len: usize = picture_len(tag);
        let mut pictures: Vec<Picture> = Vec::new();
        let mut i: usize = 0;
        while i < len
            invariant
                len == tag_pictures(*tag).len(),
                i <= len,
                pictures@.len() == i,
                forall|j: int| 0 <= j < i ==> (#[trigger] pictures@[j])@ == tag_pictures(*tag)[j],
            decreases len - i,
        {
            let picture = Picture {
                kind: picture_kind(tag, i),
                format: picture_format(tag, i),
                data: picture_data(tag, i),
            };
            pictures.push(picture);
            i = i + 1;
        }
        assert(picture_views(pictures@) =~= tag_pictures(*tag));
        pictures
    }

    /// The cover to show for a tag: the first front cover among its
    /// pictures where that is a PNG or a JPEG, else the default cover.
    pub fn extract_cover_image_from_tag(tag: &lofty::tag::Tag) -> (cover: Cover)
        ensures
            cover@ == cover_choice(tag_pictures(*tag)),
    {
        choose_cover(NowPlaying::pictures_of(tag))
    }

    /// The place and size of the cover.
    pub fn cover_frame() -> (frame: Rect)
        ensures
            frame == (Rect { x: 150, y: 40, w: 100, h: 100 }),
    {
        Rect { x: 150, y: 40, w: 100, h: 100 }
    }

    /// The x coordinate at which text `text_width` wide sits centred over
    /// `widget`.
    pub fn text_center_x_of_widget(widget: &Rect, text_width: i32) -> (x: i32)
        requires
            i32::MIN <= widget.x + centered_offset(widget.w as int, text_width as int) <= i32::MAX,
        ensures
            x == widget.x + centered_offset(widget.w as int, text_width as int),
    {
        widget.center_x_for(text_width)
    }

    /// The y coordinate of the title: just below the cover.
    pub fn get_title_widget_y(cover_widget: &Rect) -> (y: i32)
        requires
            i32::MIN <= cover_widget.bottom() <= i32::MAX,
        ensures
            y == cover_widget.bottom(),
    {
        cover_widget.below()
    }

    /// The y coordinate of the artist: just below the title.
    pub fn get_artist_widget_y(title_widget: &Rect) -> (y: i32)
        requires
            i32::MIN <= title_widget.bottom() <= i32::MAX,
        ensures
            y == title_widget.bottom(),
    {
        title_widget.below()
    }

    /// Whether a line of text `text_width` wide can be placed centred over
    /// `cover_widget` and just below `above`.
    pub fn can_place_text(cover_widget: &Rect, above: &Rect, text_width: i32) -> (fits: bool)
        ensures
            fits == text_line_fits(*cover_widget, above.bottom(), text_width as int),
    {
        let slack: i64 = cover_widget.w as i64 - text_width as i64;
        let x: i64 = cover_widget.x as i64 + slack / 2;
        let y: i64 = above.y as i64 + above.h as i64;
        let w: i64 = text_width as i64 + TEXT_PADDING as i64;
        -2147483648 <= x && x <= 2147483647 && -2147483648 <= y && y <= 2147483647 && w
            <= 2147483647
    }

    /// The place and size of the title, whose text is `text_width` wide:
    /// centred over the cover and just below it.
    pub fn create_title_widget(cover_widget: &Rect, text_width: i32) -> (title_widget: Rect)
        requires
            text_line_fits(*cover_widget, cover_widget.bottom(), text_width as int),
        ensures
            title_widget == text_line(*cover_widget, cover_widget.bottom(), text_width as int),
    {
        Rect {
            x: NowPlaying::text_center_x_of_widget(cover_widget, text_width),
            y: NowPlaying::get_title_widget_y(cover_widget),
            w: text_width + TEXT_PADDING,
            h: TEXT_HEIGHT,
        }
    }

    /// The place and size of the artist, whose text is `text_width` wide:
    /// centred over the cover and just below the title.
    pub fn create_artist_widget(cover_widget: &Rect, title_widget: &Rect, text_width: i32) -> (artist_widget: Rect)
        requires
            text_line_fits(*cover_widget, title_widget.bottom(), text_width as int),
        ensures
            artist_widget == text_line(*cover_widget, title_widget.bottom(), text_width as int),
    {
        Rect {
            x: NowPlaying::text_center_x_of_widget(cover_widget, text_width),
            y: NowPlaying::get_artist_widget_y(title_widget),
            w: text_width + TEXT_PADDING,
            h: TEXT_HEIGHT,
        }
    }
}

} // verus!
