//! Where the files that the application loads at run time come from.
use vstd::prelude::*;
use vstd::string::StringExecFns;

use crate::platform::Platform;

verus! {

/// Where the application lies below the origin of its web page.
pub const CRATE_LOCATION: &'static str = "";

/// An address, carried through unread.
#[verifier::external_type_specification]
#[verifier::external_body]
pub struct ExUrl(reqwest::Url);

/// Where to load a file from.
#[derive(Debug, PartialEq)]
pub enum Source {
    /// The file of this name.
    File(String),
    /// A request to this address.
    Url(reqwest::Url),
}

/// What to make of the contents.
#[derive(Clone, Copy, Debug, PartialEq, Eq, Structural)]
pub enum Contents {
    Bytes,
    Text,
}

/// A load to perform.
#[derive(Debug, PartialEq)]
pub struct Load {
    pub source: Source,
    pub contents: Contents,
}

/// The address that `reqwest::Url::parse` reads in `text`, if there is one.
pub uninterp spec fn parsed_url(text: Seq<char>) -> Option<reqwest::Url>;

/// The address that `reqwest::Url::join` makes of `base` and `input`, if there is one.
pub uninterp spec fn joined_url(base: reqwest::Url, input: Seq<char>) -> Option<reqwest::Url>;

/// Calls `reqwest::Url::parse` on `text`. Whether there is an address and which one
/// depends on the text alone; the reason why there is none is dropped.
#[verifier::external_body]
fn parse_url(text: &str) -> (url: Option<reqwest::Url>)
    ensures
        url == parsed_url(text@),
{
    reqwest::Url::parse(text).ok()
}

/// Calls `reqwest::Url::join` on `base` with `input`. Whether there is an address and which
/// one depends on the two alone; the reason why there is none is dropped.
#[verifier::external_body]
fn join_url(base: &reqwest::Url, input: &str) -> (url: Option<reqwest::Url>)
    ensures
        url == joined_url(*base, input@),
{
    base.join(input).ok()
}

/// The address that names of files are relative to.
pub open spec fn base_address(origin: Seq<char>) -> Seq<char> {
    origin + "/"@ + CRATE_LOCATION@
}

/// The address of `file_name` on a page from `origin`, if it has one.
pub open spec fn file_address(origin: Seq<char>, file_name: Seq<char>) -> Option<reqwest::Url> {
    match parsed_url(base_address(origin)) {
        Some(base) => joined_url(base, file_name),
        None => None,
    }
}

/// The address that names of files are relative to.
pub fn base_url(origin: &str) -> (base: String)
    ensures
        base@ == base_address(origin@),
        base@ == origin@ + "/"@ + CRATE_LOCATION@,
{
    let mut base = origin.to_owned();
    base.append("/");
    base.append(CRATE_LOCATION);
    base
}

/// The address of `file_name` on a page from `origin`, if it has one.
fn resolve(origin: &str, file_name: &str) -> (url: Option<reqwest::Url>)
    ensures
        url == file_address(origin@, file_name@),
{
    let base = base_url(origin);
    match parse_url(base.as_str()) {
        Some(base) => join_url(&base, file_name),
        None => None,
    }
}

/// The address of `file_name` on a page from `origin`.
pub fn format_url(origin: &str, file_name: &str) -> (url: reqwest::Url)
    requires
        file_address(origin@, file_name@) is Some,
    ensures
        Some(url) == file_address(origin@, file_name@),
        parsed_url(origin@ + "/"@ + CRATE_LOCATION@) matches Some(base) && Some(url)
            == joined_url(base, file_name@),
{
    resolve(origin, file_name).unwrap()
}

/// The address of `file_name` on a page from `origin`, or nothing if it has none.
pub fn try_format_url(origin: &str, file_name: &str) -> (url: Option<reqwest::Url>)
    ensures
        url == file_address(origin@, file_name@),
        parsed_url(origin@ + "/"@ + CRATE_LOCATION@) is None ==> url is None,
        parsed_url(origin@ + "/"@ + CRATE_LOCATION@) matches Some(base) ==> url == joined_url(
            base,
            file_name@,
        ),
{
    if resolve(origin, file_name).is_some() {
        Some(format_url(origin, file_name))
    } else {
        None
    }
}

impl Source {
    /// This is where `filename` comes from: on a web page from its address there,
    /// otherwise from the file of that name.
    pub open spec fn locates(self, platform: Platform<'_>, filename: Seq<char>) -> bool {
        match platform {
            Platform::Native => self matches Source::File(name) && name@ == filename,
            Platform::Web { origin } => self matches Source::Url(url) && Some(url)
                == file_address(origin@, filename),
        }
    }
}

/// Where `filename` comes from. On a web page, nothing if it has no address there.
fn locate(platform: Platform<'_>, filename: &str) -> (source: Option<Source>)
    ensures
        source is None <==> (platform matches Platform::Web { origin } && file_address(
            origin@,
            filename@,
        ) is None),
        source matches Some(source) ==> source.locates(platform, filename@),
{
    match platform {
        Platform::Native => Some(Source::File(filename.to_owned())),
        Platform::Web { origin } => match try_format_url(origin, filename) {
            Some(url) => Some(Source::Url(url)),
            None => None,
        },
    }
}

/// The load that gives the bytes of `filename`. On a web page, nothing if it has no
/// address there.
pub fn load_bytes(platform: Platform<'_>, filename: &str) -> (load: Option<Load>)
    ensures
        load is None <==> (platform matches Platform::Web { origin } && file_address(
            origin@,
            filename@,
        ) is None),
        load matches Some(load) ==> load.source.locates(platform, filename@) && load.contents
            == Contents::Bytes,
        platform is Native ==> (load matches Some(load) && load.source matches Source::File(name)
            && name@ == filename@),
        platform matches Platform::Web { origin } ==> {
            let base = parsed_url(origin@ + "/"@ + CRATE_LOCATION@);
            &&& load is Some <==> base is Some && joined_url(base->0, filename@) is Some
            &&& load matches Some(load) ==> load.source matches Source::Url(url) && Some(url)
                == joined_url(base->0, filename@)
        },
{
    match locate(platform, filename) {
        Some(source) => Some(Load { source, contents: Contents::Bytes }),
        None => None,
    }
}

/// The load that gives the text in `filename`. On a web page, nothing if it has no
/// address there.
pub fn load_string(platform: Platform<'_>, filename: &str) -> (load: Option<Load>)
    ensures
        load is None <==> (platform matches Platform::Web { origin } && file_address(
            origin@,
            filename@,
        ) is None),
        load matches Some(load) ==> load.source.locates(platform, filename@) && load.contents
            == Contents::Text,
        platform is Native ==> (load matches Some(load) && load.source matches Source::File(name)
            && name@ == filename@),
        platform matches Platform::Web { origin } ==> {
            let base = parsed_url(origin@ + "/"@ + CRATE_LOCATION@);
            &&& load is Some <==> base is Some && joined_url(base->0, filename@) is Some
            &&& load matches Some(load) ==> load.source matches Source::Url(url) && Some(url)
                == joined_url(base->0, filename@)
        },
{
    match locate(platform, filename) {
        Some(source) => Some(Load { source, contents: Contents::Text }),
        None => None,
    }
}

/// The base is the origin with one slash behind it, whatever the origin.
pub proof fn lemma_base_is_the_origin_and_a_slash(origin: Seq<char>)
    ensures
        base_address(origin).len() == origin.len() + 1,
        base_address(origin).drop_last() == origin,
        base_address(origin).last() == '/',
{
    reveal_strlit("/");
    reveal_strlit("");
    assert(base_address(origin) =~= origin.push('/'));
}

/// The address of a file is one join of its name onto the base that the origin and a slash
/// spell, whatever the name; without such a base there is none.
pub proof fn lemma_address_is_one_join(origin: Seq<char>, file_name: Seq<char>)
    ensures
        parsed_url(origin.push('/')) is None ==> file_address(origin, file_name) is None,
        parsed_url(origin.push('/')) matches Some(base) ==> file_address(origin, file_name)
            == joined_url(base, file_name),
{
    lemma_base_is_the_origin_and_a_slash(origin);
    assert(base_address(origin) =~= origin.push('/'));
}

/// Two origins whose bases are read as the same address give every file the same address.
pub proof fn lemma_address_depends_on_the_base_alone(
    origin: Seq<char>,
    other: Seq<char>,
    file_name: Seq<char>,
)
    requires
        parsed_url(origin.push('/')) == parsed_url(other.push('/')),
    ensures
        file_address(origin, file_name) == file_address(other, file_name),
{
    lemma_address_is_one_join(origin, file_name);
    lemma_address_is_one_join(other, file_name);
}

/// A source is right on one kind of platform only: files are for programs, and have the very
/// name that was asked for; requests are for web pages, and go to the one join of the name.
pub proof fn lemma_sources_belong_to_their_platform(
    source: Source,
    platform: Platform<'_>,
    filename: Seq<char>,
)
    requires
        source.locates(platform, filename),
    ensures
        source is File <==> platform is Native,
        source matches Source::File(name) ==> name@ == filename,
        source matches Source::Url(url) ==> (platform matches Platform::Web { origin } && ({
            &&& parsed_url(origin@.push('/')) matches Some(base)
            &&& joined_url(base, filename) == Some(url)
        })),
{
    if let Platform::Web { origin } = platform {
        lemma_address_is_one_join(origin@, filename);
    }
}

} // verus!
