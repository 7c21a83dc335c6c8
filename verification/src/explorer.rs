//! The file-type explorer of the side bar: the categories of files, the
//! extensions that make up each, and which one is chosen.

use vstd::prelude::*;
use vstd::string::*;

verus! {

/// A category of files in the side bar.
#[derive(Debug, Clone, Copy, PartialEq, Eq, Structural)]
pub enum Category {
    All,
    Binaries,
    Archives,
    Audio,
    Books,
    Fonts,
    Images,
    Sheets,
    Slides,
    Texts,
    Videos,
}

/// The extensions that make up a category (none for `All`, which shows every file).
pub open spec fn category_exts(c: Category) -> Seq<Seq<char>> {
    match c {
        Category::All => seq![],
        Category::Binaries => seq!["exe"@, "msi"@, "bin"@, "command"@, "sh"@, "bat"@, "crx"@, "bash"@, "csh"@, "fish"@, "ksh"@, "zsh"@],
        Category::Archives => seq!["7z"@, "a"@, "aar"@, "apk"@, "ar"@, "bz2"@, "br"@, "cab"@, "cpio"@, "deb"@, "dmg"@, "egg"@, "gz"@, "iso"@, "jar"@, "lha"@, "lz"@, "lz4"@, "lzma"@, "lzo"@, "mar"@, "pea"@, "rar"@, "rpm"@, "s7z"@, "shar"@, "tar"@, "tbz2"@, "tgz"@, "tlz"@, "txz"@, "war"@, "whl"@, "xpi"@, "zip"@, "zipx"@, "zst"@, "xz"@, "pak"@],
        Category::Audio => seq!["aac"@, "aiff"@, "ape"@, "au"@, "flac"@, "gsm"@, "it"@, "m3u"@, "m4a"@, "mid"@, "mod"@, "mp3"@, "mpa"@, "ogg"@, "pls"@, "ra"@, "s3m"@, "sid"@, "wav"@, "wma"@, "xm"@],
        Category::Books => seq!["mobi"@, "epub"@, "azw1"@, "azw3"@, "azw4"@, "azw6"@, "azw"@, "cbr"@, "cbz"@],
        Category::Fonts => seq!["eot"@, "otf"@, "ttf"@, "woff"@, "woff2"@],
        Category::Images => seq!["3dm"@, "3ds"@, "max"@, "avif"@, "bmp"@, "dds"@, "gif"@, "heic"@, "heif"@, "jpg"@, "jpeg"@, "jxl"@, "png"@, "psd"@, "xcf"@, "tga"@, "thm"@, "tif"@, "tiff"@, "yuv"@, "ai"@, "eps"@, "ps"@, "svg"@, "dwg"@, "dxf"@, "gpx"@, "kml"@, "kmz"@, "webp"@],
        Category::Sheets => seq!["ods"@, "xls"@, "xlsx"@, "csv"@, "tsv"@, "ics"@, "vcf"@],
        Category::Slides => seq!["ppt"@, "pptx"@, "odp"@],
        Category::Texts => seq!["doc"@, "docx"@, "ebook"@, "log"@, "md"@, "msg"@, "odt"@, "org"@, "pages"@, "pdf"@, "rtf"@, "rst"@, "tex"@, "txt"@, "wpd"@, "wps"@],
        Category::Videos => seq!["3g2"@, "3gp"@, "aaf"@, "asf"@, "avchd"@, "avi"@, "car"@, "dav"@, "drc"@, "flv"@, "m2v"@, "m2ts"@, "m4p"@, "m4v"@, "mkv"@, "mng"@, "mov"@, "mp2"@, "mp4"@, "mpe"@, "mpeg"@, "mpg"@, "mpv"@, "mts"@, "mxf"@, "nsv"@, "ogv"@, "ogm"@, "ogx"@, "qt"@, "rm"@, "rmvb"@, "roq"@, "srt"@, "svi"@, "vob"@, "webm"@, "wmv"@, "xba"@, "yuv"@],
    }
}

fn binaries_exts() -> (r: Vec<String>)
    ensures
        r.deep_view() == category_exts(Category::Binaries),
{
    let mut v: Vec<String> = Vec::new();
    v.push(String::from_str("exe"));
    v.push(String::from_str("msi"));
    v.push(String::from_str("bin"));
    v.push(String::from_str("command"));
    v.push(String::from_str("sh"));
    v.push(String::from_str("bat"));
    v.push(String::from_str("crx"));
    v.push(String::from_str("bash"));
    v.push(String::from_str("csh"));
    v.push(String::from_str("fish"));
    v.push(String::from_str("ksh"));
    v.push(String::from_str("zsh"));
    assert(v.deep_view() =~= category_exts(Category::Binaries));
    v
}

fn archives_exts() -> (r: Vec<String>)
    ensures
        r.deep_view() == category_exts(Category::Archives),
{
    let mut v: Vec<String> = Vec::new();
    v.push(String::from_str("7z"));
    v.push(String::from_str("a"));
    v.push(String::from_str("aar"));
    v.push(String::from_str("apk"));
    v.push(String::from_str("ar"));
    v.push(String::from_str("bz2"));
    v.push(String::from_str("br"));
    v.push(String::from_str("cab"));
    v.push(String::from_str("cpio"));
    v.push(String::from_str("deb"));
    v.push(String::from_str("dmg"));
    v.push(String::from_str("egg"));
    v.push(String::from_str("gz"));
    v.push(String::from_str("iso"));
    v.push(String::from_str("jar"));
    v.push(String::from_str("lha"));
    v.push(String::from_str("lz"));
    v.push(String::from_str("lz4"));
    v.push(String::from_str("lzma"));
    v.push(String::from_str("lzo"));
    v.push(String::from_str("mar"));
    v.push(String::from_str("pea"));
    v.push(String::from_str("rar"));
    v.push(String::from_str("rpm"));
    v.push(String::from_str("s7z"));
    v.push(String::from_str("shar"));
    v.push(String::from_str("tar"));
    v.push(String::from_str("tbz2"));
    v.push(String::from_str("tgz"));
    v.push(String::from_str("tlz"));
    v.push(String::from_str("txz"));
    v.push(String::from_str("war"));
    v.push(String::from_str("whl"));
    v.push(String::from_str("xpi"));
    v.push(String::from_str("zip"));
    v.push(String::from_str("zipx"));
    v.push(String::from_str("zst"));
    v.push(String::from_str("xz"));
    v.push(String::from_str("pak"));
    assert(v.deep_view() =~= category_exts(Category::Archives));
    v
}

fn audio_exts() -> (r: Vec<String>)
    ensures
        r.deep_view() == category_exts(Category::Audio),
{
    let mut v: Vec<String> = Vec::new();
    v.push(String::from_str("aac"));
    v.push(String::from_str("aiff"));
    v.push(String::from_str("ape"));
    v.push(String::from_str("au"));
    v.push(String::from_str("flac"));
    v.push(String::from_str("gsm"));
    v.push(String::from_str("it"));
    v.push(String::from_str("m3u"));
    v.push(String::from_str("m4a"));
    v.push(String::from_str("mid"));
    v.push(String::from_str("mod"));
    v.push(String::from_str("mp3"));
    v.push(String::from_str("mpa"));
    v.push(String::from_str("ogg"));
    v.push(String::from_str("pls"));
    v.push(String::from_str("ra"));
    v.push(String::from_str("s3m"));
    v.push(String::from_str("sid"));
    v.push(String::from_str("wav"));
    v.push(String::from_str("wma"));
    v.push(String::from_str("xm"));
    assert(v.deep_view() =~= category_exts(Category::Audio));
    v
}

fn books_exts() -> (r: Vec<String>)
    ensures
        r.deep_view() == category_exts(Category::Books),
{
    let mut v: Vec<String> = Vec::new();
    v.push(String::from_str("mobi"));
    v.push(String::from_str("epub"));
    v.push(String::from_str("azw1"));
    v.push(String::from_str("azw3"));
    v.push(String::from_str("azw4"));
    v.push(String::from_str("azw6"));
    v.push(String::from_str("azw"));
    v.push(String::from_str("cbr"));
    v.push(String::from_str("cbz"));
    assert(v.deep_view() =~= category_exts(Category::Books));
    v
}

fn fonts_exts() -> (r: Vec<String>)
    ensures
        r.deep_view() == category_exts(Category::Fonts),
{
    let mut v: Vec<String> = Vec::new();
    v.push(String::from_str("eot"));
    v.push(String::from_str("otf"));
    v.push(String::from_str("ttf"));
    v.push(String::from_str("woff"));
    v.push(String::from_str("woff2"));
    assert(v.deep_view() =~= category_exts(Category::Fonts));
    v
}

fn images_exts() -> (r: Vec<String>)
    ensures
        r.deep_view() == category_exts(Category::Images),
{
    let mut v: Vec<String> = Vec::new();
    v.push(String::from_str("3dm"));
    v.push(String::from_str("3ds"));
    v.push(String::from_str("max"));
    v.push(String::from_str("avif"));
    v.push(String::from_str("bmp"));
    v.push(String::from_str("dds"));
    v.push(String::from_str("gif"));
    v.push(String::from_str("heic"));
    v.push(String::from_str("heif"));
    v.push(String::from_str("jpg"));
    v.push(String::from_str("jpeg"));
    v.push(String::from_str("jxl"));
    v.push(String::from_str("png"));
    v.push(String::from_str("psd"));
    v.push(String::from_str("xcf"));
    v.push(String::from_str("tga"));
    v.push(String::from_str("thm"));
    v.push(String::from_str("tif"));
    v.push(String::from_str("tiff"));
    v.push(String::from_str("yuv"));
    v.push(String::from_str("ai"));
    v.push(String::from_str("eps"));
    v.push(String::from_str("ps"));
    v.push(String::from_str("svg"));
    v.push(String::from_str("dwg"));
    v.push(String::from_str("dxf"));
    v.push(String::from_str("gpx"));
    v.push(String::from_str("kml"));
    v.push(String::from_str("kmz"));
    v.push(String::from_str("webp"));
    assert(v.deep_view() =~= category_exts(Category::Images));
    v
}

fn sheets_exts() -> (r: Vec<String>)
    ensures
        r.deep_view() == category_exts(Category::Sheets),
{
    let mut v: Vec<String> = Vec::new();
    v.push(String::from_str("ods"));
    v.push(String::from_str("xls"));
    v.push(String::from_str("xlsx"));
    v.push(String::from_str("csv"));
    v.push(String::from_str("tsv"));
    v.push(String::from_str("ics"));
    v.push(String::from_str("vcf"));
    assert(v.deep_view() =~= category_exts(Category::Sheets));
    v
}

fn slides_exts() -> (r: Vec<String>)
    ensures
        r.deep_view() == category_exts(Category::Slides),
{
    let mut v: Vec<String> = Vec::new();
    v.push(String::from_str("ppt"));
    v.push(String::from_str("pptx"));
    v.push(String::from_str("odp"));
    assert(v.deep_view() =~= category_exts(Category::Slides));
    v
}

fn texts_exts() -> (r: Vec<String>)
    ensures
        r.deep_view() == category_exts(Category::Texts),
{
    let mut v: Vec<String> = Vec::new();
    v.push(String::from_str("doc"));
    v.push(String::from_str("docx"));
    v.push(String::from_str("ebook"));
    v.push(String::from_str("log"));
    v.push(String::from_str("md"));
    v.push(String::from_str("msg"));
    v.push(String::from_str("odt"));
    v.push(String::from_str("org"));
    v.push(String::from_str("pages"));
    v.push(String::from_str("pdf"));
    v.push(String::from_str("rtf"));
    v.push(String::from_str("rst"));
    v.push(String::from_str("tex"));
    v.push(String::from_str("txt"));
    v.push(String::from_str("wpd"));
    v.push(String::from_str("wps"));
    assert(v.deep_view() =~= category_exts(Category::Texts));
    v
}

fn videos_exts() -> (r: Vec<String>)
    ensures
        r.deep_view() == category_exts(Category::Videos),
{
    let mut v: Vec<String> = Vec::new();
    v.push(String::from_str("3g2"));
    v.push(String::from_str("3gp"));
    v.push(String::from_str("aaf"));
    v.push(String::from_str("asf"));
    v.push(String::from_str("avchd"));
    v.push(String::from_str("avi"));
    v.push(String::from_str("car"));
    v.push(String::from_str("dav"));
    v.push(String::from_str("drc"));
    v.push(String::from_str("flv"));
    v.push(String::from_str("m2v"));
    v.push(String::from_str("m2ts"));
    v.push(String::from_str("m4p"));
    v.push(String::from_str("m4v"));
    v.push(String::from_str("mkv"));
    v.push(String::from_str("mng"));
    v.push(String::from_str("mov"));
    v.push(String::from_str("mp2"));
    v.push(String::from_str("mp4"));
    v.push(String::from_str("mpe"));
    v.push(String::from_str("mpeg"));
    v.push(String::from_str("mpg"));
    v.push(String::from_str("mpv"));
    v.push(String::from_str("mts"));
    v.push(String::from_str("mxf"));
    v.push(String::from_str("nsv"));
    v.push(String::from_str("ogv"));
    v.push(String::from_str("ogm"));
    v.push(String::from_str("ogx"));
    v.push(String::from_str("qt"));
    v.push(String::from_str("rm"));
    v.push(String::from_str("rmvb"));
    v.push(String::from_str("roq"));
    v.push(String::from_str("srt"));
    v.push(String::from_str("svi"));
    v.push(String::from_str("vob"));
    v.push(String::from_str("webm"));
    v.push(String::from_str("wmv"));
    v.push(String::from_str("xba"));
    v.push(String::from_str("yuv"));
    assert(v.deep_view() =~= category_exts(Category::Videos));
    v
}

/// The extensions of a category.
pub fn extensions_of(c: Category) -> (r: Vec<String>)
    ensures
        r.deep_view() == category_exts(c),
{
    match c {
        Category::All => {
            let v: Vec<String> = Vec::new();
            assert(v.deep_view() =~= category_exts(Category::All));
            v
        },
        Category::Binaries => binaries_exts(),
        Category::Archives => archives_exts(),
        Category::Audio => audio_exts(),
        Category::Books => books_exts(),
        Category::Fonts => fonts_exts(),
        Category::Images => images_exts(),
        Category::Sheets => sheets_exts(),
        Category::Slides => slides_exts(),
        Category::Texts => texts_exts(),
        Category::Videos => videos_exts(),
    }
}

/// One category in the side bar: whether it is the chosen one, and its extensions.
pub struct Inner {
    pub clicked: bool,
    pub exts: Vec<String>,
}

impl Default for Inner {
    fn default() -> (r: Self)
        ensures
            r.clicked,
            r.exts@.len() == 0,
    {
        Inner { clicked: true, exts: Vec::new() }
    }
}

/// All the categories of the side bar. Each holds its own extensions, and at most one
/// is chosen at a time.
pub struct Types {
    all: Inner,
    binaries: Inner,
    archives: Inner,
    audio: Inner,
    books: Inner,
    fonts: Inner,
    images: Inner,
    sheets: Inner,
    slides: Inner,
    texts: Inner,
    videos: Inner,
}

impl Types {
    /// The entry of a category.
    pub closed spec fn entry(&self, c: Category) -> &Inner {
        match c {
            Category::All => &self.all,
            Category::Binaries => &self.binaries,
            Category::Archives => &self.archives,
            Category::Audio => &self.audio,
            Category::Books => &self.books,
            Category::Fonts => &self.fonts,
            Category::Images => &self.images,
            Category::Sheets => &self.sheets,
            Category::Slides => &self.slides,
            Category::Texts => &self.texts,
            Category::Videos => &self.videos,
        }
    }

    /// Whether every category holds its own extensions.
    pub open spec fn holds_extensions(&self) -> bool {
        forall|c: Category| #[trigger] self.entry(c).exts.deep_view() == category_exts(c)
    }

    /// Whether no two categories are chosen together.
    pub open spec fn at_most_one_chosen(&self) -> bool {
        forall|c: Category, d: Category|
            #[trigger] self.entry(c).clicked && #[trigger] self.entry(d).clicked ==> c == d
    }

    spec fn fields_hold_extensions(self) -> bool {
        self.all.exts.deep_view() == category_exts(Category::All)
        && self.binaries.exts.deep_view() == category_exts(Category::Binaries)
        && self.archives.exts.deep_view() == category_exts(Category::Archives)
        && self.audio.exts.deep_view() == category_exts(Category::Audio)
        && self.books.exts.deep_view() == category_exts(Category::Books)
        && self.fonts.exts.deep_view() == category_exts(Category::Fonts)
        && self.images.exts.deep_view() == category_exts(Category::Images)
        && self.sheets.exts.deep_view() == category_exts(Category::Sheets)
        && self.slides.exts.deep_view() == category_exts(Category::Slides)
        && self.texts.exts.deep_view() == category_exts(Category::Texts)
        && self.videos.exts.deep_view() == category_exts(Category::Videos)
    }

    spec fn number_chosen(self) -> int {
        (if self.all.clicked { 1int } else { 0int })
            + (if self.binaries.clicked { 1int } else { 0int })
            + (if self.archives.clicked { 1int } else { 0int })
            + (if self.audio.clicked { 1int } else { 0int })
            + (if self.books.clicked { 1int } else { 0int })
            + (if self.fonts.clicked { 1int } else { 0int })
            + (if self.images.clicked { 1int } else { 0int })
            + (if self.sheets.clicked { 1int } else { 0int })
            + (if self.slides.clicked { 1int } else { 0int })
            + (if self.texts.clicked { 1int } else { 0int })
            + (if self.videos.clicked { 1int } else { 0int })
    }

    spec fn none_chosen(self) -> bool {
        !self.all.clicked
        && !self.binaries.clicked
        && !self.archives.clicked
        && !self.audio.clicked
        && !self.books.clicked
        && !self.fonts.clicked
        && !self.images.clicked
        && !self.sheets.clicked
        && !self.slides.clicked
        && !self.texts.clicked
        && !self.videos.clicked
    }

    #[verifier::type_invariant]
    spec fn well_formed(self) -> bool {
        self.fields_hold_extensions() && self.number_chosen() <= 1
    }

    proof fn lemma_well_formed(self)
        requires
            self.well_formed(),
        ensures
            self.holds_extensions(),
            self.at_most_one_chosen(),
    {
        assert forall|c: Category| #[trigger] self.entry(c).exts.deep_view() == category_exts(c) by {
            match c {
            Category::All => {},
            Category::Binaries => {},
            Category::Archives => {},
            Category::Audio => {},
            Category::Books => {},
            Category::Fonts => {},
            Category::Images => {},
            Category::Sheets => {},
            Category::Slides => {},
            Category::Texts => {},
            Category::Videos => {},
            }
        }
        assert forall|c: Category, d: Category|
            #[trigger] self.entry(c).clicked && #[trigger] self.entry(d).clicked implies c == d by {
            match c {
            Category::All => { match d { Category::All => {}, Category::Binaries => {}, Category::Archives => {}, Category::Audio => {}, Category::Books => {}, Category::Fonts => {}, Category::Images => {}, Category::Sheets => {}, Category::Slides => {}, Category::Texts => {}, Category::Videos => {}, } },
            Category::Binaries => { match d { Category::All => {}, Category::Binaries => {}, Category::Archives => {}, Category::Audio => {}, Category::Books => {}, Category::Fonts => {}, Category::Images => {}, Category::Sheets => {}, Category::Slides => {}, Category::Texts => {}, Category::Videos => {}, } },
            Category::Archives => { match d { Category::All => {}, Category::Binaries => {}, Category::Archives => {}, Category::Audio => {}, Category::Books => {}, Category::Fonts => {}, Category::Images => {}, Category::Sheets => {}, Category::Slides => {}, Category::Texts => {}, Category::Videos => {}, } },
            Category::Audio => { match d { Category::All => {}, Category::Binaries => {}, Category::Archives => {}, Category::Audio => {}, Category::Books => {}, Category::Fonts => {}, Category::Images => {}, Category::Sheets => {}, Category::Slides => {}, Category::Texts => {}, Category::Videos => {}, } },
            Category::Books => { match d { Category::All => {}, Category::Binaries => {}, Category::Archives => {}, Category::Audio => {}, Category::Books => {}, Category::Fonts => {}, Category::Images => {}, Category::Sheets => {}, Category::Slides => {}, Category::Texts => {}, Category::Videos => {}, } },
            Category::Fonts => { match d { Category::All => {}, Category::Binaries => {}, Category::Archives => {}, Category::Audio => {}, Category::Books => {}, Category::Fonts => {}, Category::Images => {}, Category::Sheets => {}, Category::Slides => {}, Category::Texts => {}, Category::Videos => {}, } },
            Category::Images => { match d { Category::All => {}, Category::Binaries => {}, Category::Archives => {}, Category::Audio => {}, Category::Books => {}, Category::Fonts => {}, Category::Images => {}, Category::Sheets => {}, Category::Slides => {}, Category::Texts => {}, Category::Videos => {}, } },
            Category::Sheets => { match d { Category::All => {}, Category::Binaries => {}, Category::Archives => {}, Category::Audio => {}, Category::Books => {}, Category::Fonts => {}, Category::Images => {}, Category::Sheets => {}, Category::Slides => {}, Category::Texts => {}, Category::Videos => {}, } },
            Category::Slides => { match d { Category::All => {}, Category::Binaries => {}, Category::Archives => {}, Category::Audio => {}, Category::Books => {}, Category::Fonts => {}, Category::Images => {}, Category::Sheets => {}, Category::Slides => {}, Category::Texts => {}, Category::Videos => {}, } },
            Category::Texts => { match d { Category::All => {}, Category::Binaries => {}, Category::Archives => {}, Category::Audio => {}, Category::Books => {}, Category::Fonts => {}, Category::Images => {}, Category::Sheets => {}, Category::Slides => {}, Category::Texts => {}, Category::Videos => {}, } },
            Category::Videos => { match d { Category::All => {}, Category::Binaries => {}, Category::Archives => {}, Category::Audio => {}, Category::Books => {}, Category::Fonts => {}, Category::Images => {}, Category::Sheets => {}, Category::Slides => {}, Category::Texts => {}, Category::Videos => {}, } },
            }
        }
    }

    /// The entry of a category.
    pub fn get(&self, c: Category) -> (r: &Inner)
        ensures
            r == self.entry(c),
            r.exts.deep_view() == category_exts(c),
    {
        proof {
            use_type_invariant(self);
            self.lemma_well_formed();
        }
        match c {
            Category::All => &self.all,
            Category::Binaries => &self.binaries,
            Category::Archives => &self.archives,
            Category::Audio => &self.audio,
            Category::Books => &self.books,
            Category::Fonts => &self.fonts,
            Category::Images => &self.images,
            Category::Sheets => &self.sheets,
            Category::Slides => &self.slides,
            Category::Texts => &self.texts,
            Category::Videos => &self.videos,
        }
    }

    /// Unchooses every category.
    fn clear_choice(&mut self)
        ensures
            forall|d: Category| #[trigger] final(self).entry(d).exts == old(self).entry(d).exts,
            forall|d: Category| !#[trigger] final(self).entry(d).clicked,
            final(self).none_chosen(),
    {
        proof {
            use_type_invariant(&*self);
        }
        self.all.clicked = false;
        self.binaries.clicked = false;
        self.archives.clicked = false;
        self.audio.clicked = false;
        self.books.clicked = false;
        self.fonts.clicked = false;
        self.images.clicked = false;
        self.sheets.clicked = false;
        self.slides.clicked = false;
        self.texts.clicked = false;
        self.videos.clicked = false;
    }

    /// Chooses `c`, when none is chosen.
    fn choose_only(&mut self, c: Category)
        requires
            old(self).none_chosen(),
        ensures
            forall|d: Category| #[trigger] final(self).entry(d).exts == old(self).entry(d).exts,
            forall|d: Category| #[trigger] final(self).entry(d).clicked == (d == c),
    {
        proof {
            use_type_invariant(&*self);
        }
        match c {
            Category::All => self.all.clicked = true,
            Category::Binaries => self.binaries.clicked = true,
            Category::Archives => self.archives.clicked = true,
            Category::Audio => self.audio.clicked = true,
            Category::Books => self.books.clicked = true,
            Category::Fonts => self.fonts.clicked = true,
            Category::Images => self.images.clicked = true,
            Category::Sheets => self.sheets.clicked = true,
            Category::Slides => self.slides.clicked = true,
            Category::Texts => self.texts.clicked = true,
            Category::Videos => self.videos.clicked = true,
        }
    }
}

impl Default for Types {
    /// Every category with its extensions; `All` chosen.
    fn default() -> (r: Self)
        ensures
            r.holds_extensions(),
            forall|c: Category| #[trigger] r.entry(c).clicked == (c == Category::All),
    {
        Types {
            all: Inner { clicked: true, exts: extensions_of(Category::All) },
            binaries: Inner { clicked: false, exts: extensions_of(Category::Binaries) },
            archives: Inner { clicked: false, exts: extensions_of(Category::Archives) },
            audio: Inner { clicked: false, exts: extensions_of(Category::Audio) },
            books: Inner { clicked: false, exts: extensions_of(Category::Books) },
            fonts: Inner { clicked: false, exts: extensions_of(Category::Fonts) },
            images: Inner { clicked: false, exts: extensions_of(Category::Images) },
            sheets: Inner { clicked: false, exts: extensions_of(Category::Sheets) },
            slides: Inner { clicked: false, exts: extensions_of(Category::Slides) },
            texts: Inner { clicked: false, exts: extensions_of(Category::Texts) },
            videos: Inner { clicked: false, exts: extensions_of(Category::Videos) },
        }
    }
}

/// The side bar's explorer: the extensions of the chosen category, and the categories.
pub struct Explorer {
    pub current: Vec<String>,
    pub types: Types,
}

impl Explorer {
    /// Whether category `c` is the chosen one.
    pub closed spec fn chosen(&self, c: Category) -> bool {
        self.types.entry(c).clicked
    }

    /// Whether category `c` is the chosen one. Whatever the state, no other category
    /// is chosen with it.
    pub fn is_chosen(&self, c: Category) -> (r: bool)
        ensures
            r == self.chosen(c),
            forall|a: Category, b: Category| #[trigger] self.chosen(a) && #[trigger] self.chosen(b) ==> a == b,
    {
        proof {
            use_type_invariant(&self.types);
            self.types.lemma_well_formed();
        }
        self.types.get(c).clicked
    }
}

impl Default for Explorer {
    /// `All` chosen, with no filter.
    fn default() -> (r: Self)
        ensures
            forall|c: Category| #[trigger] r.chosen(c) == (c == Category::All),
            r.current@.len() == 0,
    {
        Explorer { current: Vec::new(), types: Types::default() }
    }
}

impl Explorer {
    /// Unchooses every category; the filter stays.
    pub fn toggle_off(&mut self)
        ensures
            final(self).current == old(self).current,
            forall|c: Category| !#[trigger] final(self).chosen(c),
    {
        self.types.clear_choice();
    }

    /// Chooses category `c` (a click on it in the side bar): it alone is chosen, and
    /// the filter becomes its extensions; for `All`, the filter is cleared.
    pub fn select(&mut self, c: Category)
        ensures
            forall|d: Category| #[trigger] final(self).chosen(d) == (d == c),
            final(self).current.deep_view() == category_exts(c),
            c == Category::All ==> final(self).current@.len() == 0,
    {
        self.types.clear_choice();
        self.types.choose_only(c);
        if c == Category::All {
            self.current = Vec::new();
            assert(self.current.deep_view() =~= category_exts(Category::All));
        } else {
            self.current = self.types.get(c).exts.clone();
        }
    }
}

} // verus!
