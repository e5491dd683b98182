//! Icons. A project's icon is drawn from a vector template in which the
//! initial of the project's name is filled in. The filled-in template is kept
//! per initial and style; the icon itself is made anew each time, per project.
//!
//! This module decides which files are read and written and what they hold,
//! fills in the template, and packs the drawn pixels into an icon file. The
//! drawing itself happens outside.

use crate::config::IconStyle;
use crate::paths::{join_path, path_join};
use crate::text::{
    chars_of, joined, joined3, option_text, owned, replace, replace_all, string_of,
    to_upper_case, upper_case,
};
use crate::utils::AppState;
use vstd::prelude::*;
use vstd::utf8::{decode_utf8, encode_utf8, encode_utf8_decode_utf8, valid_utf8};

verus! {

/// The width and the height of an icon, in pixels.
pub const ICON_SIZE: u32 = 256;

/// The resolution a template is drawn at, in dots per inch.
pub const ICON_DPI: u32 = 150;

/// An image holds at most this many pixels. An icon file addresses its
/// contents with 32 bits, and this keeps an image and whatever encodes it far
/// below that.
pub const MAX_PIXELS: u32 = 0x1000_0000;

/// The place in a template where the initial goes.
pub open spec fn initial_token() -> Seq<char> {
    "{{INITIAL}}"@
}

/// The initial of a name: its first character in upper case, or a question
/// mark where the name is empty. The upper-case form of a character can be
/// more than one character, so the initial is a text.
pub open spec fn initial_of(name: Seq<char>) -> Seq<char> {
    if name.len() == 0 {
        "?"@
    } else {
        upper_case(name[0])
    }
}

/// Computes [`initial_of`].
pub fn initial_letter(name: &str) -> (r: String)
    ensures
        r@ == initial_of(name@),
{
    let chars = chars_of(name);
    if chars.len() == 0 {
        owned("?")
    } else {
        to_upper_case(chars[0])
    }
}

/// The template that a style is drawn from, by the name it is bundled under.
/// Every style has a row here; for now they all name the same template.
pub open spec fn template_name(style: IconStyle) -> Seq<char> {
    match style {
        IconStyle::Default => "default.svg"@,
        IconStyle::Cargo => "default.svg"@,
    }
}

/// Computes [`template_name`].
pub fn template_of(style: IconStyle) -> (r: &'static str)
    ensures
        r@ == template_name(style),
{
    match style {
        IconStyle::Default => "default.svg",
        IconStyle::Cargo => "default.svg",
    }
}

/// The name of the file that keeps the filled-in template of an initial and
/// a style.
pub open spec fn cache_file_name(letter: Seq<char>, style: IconStyle) -> Seq<char> {
    letter + "-"@ + style.name() + ".svg"@
}

/// Computes [`cache_file_name`].
pub fn cache_file(letter: &str, style: IconStyle) -> (r: String)
    ensures
        r@ == cache_file_name(letter@, style),
{
    let tail = joined3("-", style.as_str(), ".svg");
    joined(letter, tail.as_str())
}

/// The name of the icon file of the project called `name`.
pub open spec fn icon_file_name(name: Seq<char>) -> Seq<char> {
    name + ".ico"@
}

/// The file that keeps the filled-in template for the project called `name`.
pub open spec fn cached_svg_path(cache_dir: Seq<char>, style: IconStyle, name: Seq<char>) -> Seq<
    char,
> {
    path_join(cache_dir, cache_file_name(initial_of(name), style))
}

/// The icon file of the project called `name`.
pub open spec fn icon_path(data_dir: Seq<char>, name: Seq<char>) -> Seq<char> {
    path_join(data_dir, icon_file_name(name))
}

/// Computes [`icon_path`].
pub fn icon_path_of(data_dir: &str, name: &str) -> (r: String)
    ensures
        r@ == icon_path(data_dir@, name@),
{
    let file = joined(name, ".ico");
    join_path(data_dir, file.as_str())
}

/// The files that making one icon touches.
#[derive(Clone, Debug, PartialEq, Eq)]
pub struct IconPlan {
    /// The directory of the filled-in templates; it is created if missing.
    pub cache_dir: String,
    /// The directory of the icons; it is created if missing.
    pub data_dir: String,
    /// The bundled template to start from.
    pub template: String,
    /// The initial to fill in.
    pub letter: String,
    /// The file that keeps the filled-in template.
    pub cached_svg: String,
    /// The icon file. It is always written anew.
    pub icon_path: String,
}

/// What an [`IconPlan`] holds.
pub struct IconPlanView {
    pub cache_dir: Seq<char>,
    pub data_dir: Seq<char>,
    pub template: Seq<char>,
    pub letter: Seq<char>,
    pub cached_svg: Seq<char>,
    pub icon_path: Seq<char>,
}

impl View for IconPlan {
    type V = IconPlanView;

    open spec fn view(&self) -> IconPlanView {
        IconPlanView {
            cache_dir: self.cache_dir@,
            data_dir: self.data_dir@,
            template: self.template@,
            letter: self.letter@,
            cached_svg: self.cached_svg@,
            icon_path: self.icon_path@,
        }
    }
}

/// The plan for the icon of the project called `name` with the initial
/// `letter`, in the directories `cache_dir` and `data_dir`.
pub open spec fn icon_plan_with(
    style: IconStyle,
    name: Seq<char>,
    letter: Seq<char>,
    cache_dir: Seq<char>,
    data_dir: Seq<char>,
) -> IconPlanView {
    IconPlanView {
        cache_dir,
        data_dir,
        template: template_name(style),
        letter,
        cached_svg: path_join(cache_dir, cache_file_name(letter, style)),
        icon_path: icon_path(data_dir, name),
    }
}

/// The plan for the icon of the project called `name`, in the directories
/// `cache_dir` and `data_dir`: the plan with the initial of the name.
pub open spec fn icon_plan(
    style: IconStyle,
    name: Seq<char>,
    cache_dir: Seq<char>,
    data_dir: Seq<char>,
) -> IconPlanView {
    icon_plan_with(style, name, initial_of(name), cache_dir, data_dir)
}

/// Computes [`icon_plan_with`]: the plan for an icon whose initial is known.
pub fn plan_icon(style: IconStyle, name: &str, letter: String, app_state: &AppState) -> (r:
    IconPlan)
    ensures
        r@ == icon_plan_with(
            style,
            name@,
            letter@,
            app_state.project_dirs.cache_dir@,
            app_state.project_dirs.data_dir@,
        ),
{
    let file_name = cache_file(letter.as_str(), style);
    IconPlan {
        cache_dir: app_state.project_dirs.cache_dir.clone(),
        data_dir: app_state.project_dirs.data_dir.clone(),
        template: owned(template_of(style)),
        cached_svg: join_path(app_state.project_dirs.cache_dir.as_str(), file_name.as_str()),
        icon_path: icon_path_of(app_state.project_dirs.data_dir.as_str(), name),
        letter,
    }
}

/// Plans the icon of the project called `name`: where the filled-in template
/// of its initial and style is kept, and where the icon goes.
pub fn build_icon(style: IconStyle, name: &str, app_state: &AppState) -> (r: IconPlan)
    ensures
        r@ == icon_plan(
            style,
            name@,
            app_state.project_dirs.cache_dir@,
            app_state.project_dirs.data_dir@,
        ),
{
    plan_icon(style, name, initial_letter(name), app_state)
}

/// Two projects whose names have the same initial share the filled-in
/// template of a style: it is kept in one file.
pub proof fn law_cache_is_per_initial_and_style(
    style: IconStyle,
    cache_dir: Seq<char>,
    name: Seq<char>,
    other: Seq<char>,
)
    requires
        initial_of(name) == initial_of(other),
    ensures
        cached_svg_path(cache_dir, style, name) == cached_svg_path(cache_dir, style, other),
{
}

/// Why an icon cannot be made.
#[derive(Clone, Debug, PartialEq, Eq)]
pub enum IconError {
    /// No template is bundled under the name that the style asks for.
    MissingTemplate,
    /// The template is not UTF-8 text.
    InvalidTemplate,
    /// The pixels do not make an image: a side is zero, the image is too
    /// large, or the data does not hold four bytes for each pixel.
    InvalidImage,
    /// The image cannot be encoded.
    Encode { message: String },
}

/// What an [`IconError`] holds.
pub enum IconErrorView {
    MissingTemplate,
    InvalidTemplate,
    InvalidImage,
    Encode { message: Seq<char> },
}

impl View for IconError {
    type V = IconErrorView;

    open spec fn view(&self) -> IconErrorView {
        match self {
            IconError::MissingTemplate => IconErrorView::MissingTemplate,
            IconError::InvalidTemplate => IconErrorView::InvalidTemplate,
            IconError::InvalidImage => IconErrorView::InvalidImage,
            IconError::Encode { message } => IconErrorView::Encode { message: message@ },
        }
    }
}

impl IconError {
    /// The error in words.
    pub fn message(&self) -> (r: String)
        ensures
            r@ == match self@ {
                IconErrorView::MissingTemplate => "Missing ICON"@,
                IconErrorView::InvalidTemplate => "Invalid icon file"@,
                IconErrorView::InvalidImage => "Invalid Pixmap Size"@,
                IconErrorView::Encode { message } => message,
            },
    {
        match self {
            IconError::MissingTemplate => owned("Missing ICON"),
            IconError::InvalidTemplate => owned("Invalid icon file"),
            IconError::InvalidImage => owned("Invalid Pixmap Size"),
            IconError::Encode { message } => message.clone(),
        }
    }
}

/// Whether a bundled file is a font by its name: the fonts are the files
/// whose names end in `.ttf`.
pub open spec fn is_font_name(name: Seq<char>) -> bool {
    ".ttf"@.is_suffix_of(name)
}

/// Computes [`is_font_name`].
pub fn is_font_file(name: &str) -> (r: bool)
    ensures
        r == is_font_name(name@),
{
    let chars = chars_of(name);
    let ending = chars_of(".ttf");
    if ending.len() > chars.len() {
        return false;
    }
    let start = chars.len() - ending.len();
    let mut k: usize = 0;
    while k < ending.len()
        invariant
            chars@ == name@,
            ending@ == ".ttf"@,
            start + ending.len() == chars.len(),
            k <= ending.len(),
            forall|j: int| 0 <= j < k ==> ending@[j] == chars@[start + j],
        decreases ending.len() - k,
    {
        if ending[k] != chars[start + k] {
            return false;
        }
        k += 1;
    }
    true
}

/// A template with the initial filled in: every occurrence of the token is
/// replaced by the letter.
pub open spec fn filled_template(template: Seq<char>, letter: Seq<char>) -> Seq<char> {
    replace_all(template, initial_token(), letter)
}

/// Computes [`filled_template`].
pub fn render_template(template: &str, letter: &str) -> (r: String)
    ensures
        r@ == filled_template(template@, letter@),
{
    let text = chars_of(template);
    let token = chars_of("{{INITIAL}}");
    let with = chars_of(letter);
    string_of(&replace(&text, &token, &with))
}

/// `String::from_utf8`: the text that the bytes encode. There is one exactly
/// where the bytes are valid UTF-8, and its encoding is those bytes again.
#[verifier::external_body]
fn text_from_utf8(bytes: Vec<u8>) -> (r: Option<String>)
    ensures
        r is Some <==> valid_utf8(bytes@),
        r matches Some(text) ==> encode_utf8(text@) == bytes@,
{
    match String::from_utf8(bytes) {
        Ok(text) => Some(text),
        Err(_) => None,
    }
}

/// The vector image of an icon, and whether it is new.
#[derive(Clone, Debug, PartialEq, Eq)]
pub struct VectorImage {
    pub svg: String,
    /// Whether the image was filled in just now and is to be kept; a kept
    /// image that was found is not written again.
    pub store: bool,
}

/// The bytes of a template that was looked up, if one was found.
pub open spec fn option_bytes(bytes: Option<Vec<u8>>) -> Option<Seq<u8>> {
    match bytes {
        Some(b) => Some(b@),
        None => None,
    }
}

/// The vector stage of an icon. The template of the style must be there,
/// whatever is kept; a missing one is an error. A kept image is then taken
/// as it is and not stored again. Without one, the template is read as UTF-8
/// text, the initial is filled in, and the result is to be stored; a
/// template that is not UTF-8 text is an error.
pub open spec fn vector_image(
    cached: Option<Seq<char>>,
    template: Option<Seq<u8>>,
    letter: Seq<char>,
) -> Result<(Seq<char>, bool), IconErrorView> {
    match template {
        None => Err(IconErrorView::MissingTemplate),
        Some(bytes) => match cached {
            Some(svg) => Ok((svg, false)),
            None => if valid_utf8(bytes) {
                Ok((filled_template(decode_utf8(bytes), letter), true))
            } else {
                Err(IconErrorView::InvalidTemplate)
            },
        },
    }
}

/// Computes [`vector_image`]. `template` is what the lookup of the bundled
/// template gave, `cached` the kept image if there is one.
pub fn vector_stage(cached: Option<String>, template: Option<Vec<u8>>, letter: &str) -> (r:
    Result<VectorImage, IconError>)
    ensures
        match r {
            Ok(image) => vector_image(option_text(cached), option_bytes(template), letter@)
                == Ok::<(Seq<char>, bool), IconErrorView>((image.svg@, image.store)),
            Err(e) => vector_image(option_text(cached), option_bytes(template), letter@)
                == Err::<(Seq<char>, bool), IconErrorView>(e@),
        },
{
    let bytes = match template {
        Some(bytes) => bytes,
        None => {
            return Err(IconError::MissingTemplate);
        },
    };
    match cached {
        Some(svg) => Ok(VectorImage { svg, store: false }),
        None => {
            match text_from_utf8(bytes) {
                Some(text) => {
                    proof {
                        encode_utf8_decode_utf8(text@);
                    }
                    Ok(VectorImage { svg: render_template(text.as_str(), letter), store: true })
                },
                None => Err(IconError::InvalidTemplate),
            }
        },
    }
}

/// Once the vector image of an initial is kept, the vector stage hands out
/// the kept image and stores nothing; and as long as the template stays the
/// same, that is the image it would fill in anew.
pub proof fn law_kept_vector_image_is_reused(template: Seq<u8>, letter: Seq<char>)
    requires
        valid_utf8(template),
    ensures
        ({
            let first = vector_image(None, Some(template), letter);
            let second = vector_image(Some(first->Ok_0.0), Some(template), letter);
            &&& first is Ok
            &&& second is Ok
            &&& first->Ok_0.1
            &&& !second->Ok_0.1
            &&& second->Ok_0.0 == first->Ok_0.0
        }),
{
}

/// Without the bundled template no vector image is handed out, kept or not.
pub proof fn law_missing_template_fails(cached: Option<Seq<char>>, letter: Seq<char>)
    ensures
        vector_image(cached, None, letter) == Err::<(Seq<char>, bool), IconErrorView>(
            IconErrorView::MissingTemplate,
        ),
{
}

/// Pixels, four bytes each (red, green, blue, alpha), row by row from the
/// top.
#[derive(Debug, PartialEq, Eq)]
pub struct RgbaImage {
    width: u32,
    height: u32,
    data: Vec<u8>,
}

/// Whether `len` bytes are the pixels of an image of this width and height.
pub open spec fn is_image(width: u32, height: u32, len: nat) -> bool {
    &&& 1 <= width
    &&& 1 <= height
    &&& width * height <= MAX_PIXELS
    &&& len == 4 * (width * height)
}

impl RgbaImage {
    #[verifier::type_invariant]
    spec fn well_formed(self) -> bool {
        is_image(self.width, self.height, self.data@.len())
    }

    pub closed spec fn spec_width(&self) -> u32 {
        self.width
    }

    pub closed spec fn spec_height(&self) -> u32 {
        self.height
    }

    pub closed spec fn pixels(&self) -> Seq<u8> {
        self.data@
    }

    /// The image of the given size, if `data` holds its pixels.
    pub fn new(width: u32, height: u32, data: Vec<u8>) -> (r: Result<RgbaImage, IconError>)
        ensures
            match r {
                Ok(image) => {
                    &&& is_image(width, height, data@.len())
                    &&& image.spec_width() == width
                    &&& image.spec_height() == height
                    &&& image.pixels() == data@
                },
                Err(e) => e is InvalidImage && !is_image(width, height, data@.len()),
            },
    {
        if width < 1 || height < 1 {
            return Err(IconError::InvalidImage);
        }
        assert((width as u64) * (height as u64) <= 0xFFFF_FFFF * 0xFFFF_FFFF) by (nonlinear_arith)
            requires
                width <= 0xFFFF_FFFF,
                height <= 0xFFFF_FFFF,
        ;
        let pixels: u64 = (width as u64) * (height as u64);
        if pixels > MAX_PIXELS as u64 {
            return Err(IconError::InvalidImage);
        }
        if data.len() as u64 != 4 * pixels {
            return Err(IconError::InvalidImage);
        }
        Ok(RgbaImage { width, height, data })
    }

    #[verifier::when_used_as_spec(spec_width)]
    pub fn width(&self) -> (r: u32)
        ensures
            r == self.spec_width(),
    {
        self.width
    }

    #[verifier::when_used_as_spec(spec_height)]
    pub fn height(&self) -> (r: u32)
        ensures
            r == self.spec_height(),
    {
        self.height
    }

    /// A copy of the pixels.
    pub fn data(&self) -> (r: Vec<u8>)
        ensures
            r@ == self.pixels(),
    {
        let mut out: Vec<u8> = Vec::new();
        let mut i: usize = 0;
        while i < self.data.len()
            invariant
                i <= self.data.len(),
                out@ == self.data@.take(i as int),
            decreases self.data.len() - i,
        {
            out.push(self.data[i]);
            i += 1;
        }
        out
    }
}

impl Clone for RgbaImage {
    fn clone(&self) -> (r: Self)
        ensures
            r.spec_width() == self.spec_width(),
            r.spec_height() == self.spec_height(),
            r.pixels() == self.pixels(),
    {
        proof {
            use_type_invariant(self);
        }
        RgbaImage { width: self.width, height: self.height, data: self.data() }
    }
}

#[verifier::external_type_specification]
#[verifier::external_body]
pub struct ExIoError(std::io::Error);

/// A side of an image as the record of the image holds it, in one byte: a
/// side of more than 255 pixels is written as zero.
pub open spec fn size_byte(side: u32) -> u8 {
    if side > 255 {
        0
    } else {
        side as u8
    }
}

/// Whether `bytes` begin the way an icon file with one image of this width
/// and height begins: the reserved zero, the kind (1, an icon) and the number
/// of images (1), each in two bytes, the low byte first; then the record of
/// the image, of 16 bytes, which begins with the width and the height.
pub open spec fn holds_one_image(bytes: Seq<u8>, width: u32, height: u32) -> bool {
    &&& bytes.len() >= 22
    &&& bytes[0] == 0 && bytes[1] == 0
    &&& bytes[2] == 1 && bytes[3] == 0
    &&& bytes[4] == 1 && bytes[5] == 0
    &&& bytes[6] == size_byte(width)
    &&& bytes[7] == size_byte(height)
}

/// The icon file that the `ico` crate makes of one image: a directory of
/// kind icon whose single entry is the image as `ico::IconDirEntry::encode`
/// encodes it, written by `ico::IconDir::write`. Nothing where the encoding
/// fails.
pub uninterp spec fn icon_file(width: u32, height: u32, rgba: Seq<u8>) -> Option<Seq<u8>>;

/// Makes an `ico::IconImage` of the pixels, encodes it as an entry with
/// `ico::IconDirEntry::encode`, and writes a directory of kind icon that
/// holds this one entry with `ico::IconDir::write`. The pixels must be an
/// image: the `ico` crate takes no others. What is written is the named
/// file; `write` begins it with the reserved zero, the kind and the number
/// of entries, and a record of 16 bytes for the entry, whose first two bytes
/// are the width and the height that `encode` took from the image.
#[verifier::external_body]
fn encode_icon(width: u32, height: u32, rgba: Vec<u8>) -> (r: Result<Vec<u8>, std::io::Error>)
    requires
        is_image(width, height, rgba@.len()),
    ensures
        match r {
            Ok(bytes) => icon_file(width, height, rgba@) == Some(bytes@),
            Err(_) => icon_file(width, height, rgba@) is None,
        },
        r matches Ok(bytes) ==> holds_one_image(bytes@, width, height),
{
    let image = ico::IconImage::from_rgba_data(width, height, rgba);
    let mut dir = ico::IconDir::new(ico::ResourceType::Icon);
    dir.add_entry(ico::IconDirEntry::encode(&image)?);
    let mut bytes = Vec::new();
    dir.write(&mut bytes)?;
    Ok(bytes)
}

/// The text of an error of `std::io`, as its `Display` gives it.
#[verifier::external_body]
fn io_error_text(error: &std::io::Error) -> (r: String) {
    format!("{}", error)
}

/// Packs an image into an icon file that holds this one image.
pub fn create_ico(image: &RgbaImage) -> (r: Result<Vec<u8>, IconError>)
    ensures
        match r {
            Ok(bytes) => holds_one_image(bytes@, image.spec_width(), image.spec_height())
                && icon_file(
                image.spec_width(),
                image.spec_height(),
                image.pixels(),
            ) == Some(bytes@),
            Err(e) => e is Encode && icon_file(
                image.spec_width(),
                image.spec_height(),
                image.pixels(),
            ) is None,
        },
{
    proof {
        use_type_invariant(image);
    }
    match encode_icon(image.width, image.height, image.data()) {
        Ok(bytes) => Ok(bytes),
        Err(e) => Err(IconError::Encode { message: io_error_text(&e) }),
    }
}

} // verus!
