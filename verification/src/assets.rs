//! The asset cache of the local web service: under which name an asset is
//! kept, where it is fetched from when it is not there, and what each failure
//! is reported as.

use vstd::prelude::*;
use vstd::string::*;

use crate::json::hex_digit;
use crate::text::{decimal_digits, decimal_text};

verus! {

/// The MD5 digest of `data`.
pub uninterp spec fn md5_digest(data: Seq<u8>) -> Seq<u8>;

/// Every byte of `bytes` as two lower-case hexadecimal digits, the high one
/// first.
pub open spec fn hex_text(bytes: Seq<u8>) -> Seq<char>
    decreases bytes.len(),
{
    if bytes.len() == 0 {
        Seq::<char>::empty()
    } else {
        hex_text(bytes.drop_last()) + seq![
            hex_digit((bytes.last() / 16) as nat),
            hex_digit((bytes.last() % 16) as nat),
        ]
    }
}

/// Hashes `data` with `md5::compute` and writes the digest with the crate's
/// `LowerHex` form. It is taken on trust that the digest depends on `data`
/// alone and is written byte by byte as two lower-case hexadecimal digits.
#[verifier::external_body]
fn md5_hex(data: &[u8]) -> (text: String)
    ensures
        text@ == hex_text(md5_digest(data@)),
{
    format!("{:x}", md5::compute(data))
}

/// The name of the file that keeps the asset `id` in the cache: the MD5
/// digest of the decimal numeral of `id`, in hexadecimal.
pub open spec fn cache_key(id: usize) -> Seq<char> {
    hex_text(md5_digest(vstd::utf8::encode_utf8(decimal_digits(id as nat))))
}

/// The address from which the asset `id` is fetched.
pub open spec fn asset_address(id: usize) -> Seq<char> {
    "https://assetdelivery.roblox.com/v1/asset?id="@ + decimal_digits(id as nat)
}

/// Finds the name of the file that keeps the asset `id` in the cache.
pub fn asset_cache_key(id: usize) -> (key: String)
    ensures
        key@ == cache_key(id),
{
    let numeral = decimal_text(id as u64);
    md5_hex(numeral.as_str().as_bytes())
}

/// Writes the address from which the asset `id` is fetched.
pub fn asset_url(id: usize) -> (url: String)
    ensures
        url@ == asset_address(id),
{
    let mut url = String::from_str("https://assetdelivery.roblox.com/v1/asset?id=");
    url.append(decimal_text(id as u64).as_str());
    url
}

/// Why an asset could not be served.
#[derive(Debug)]
pub enum AssetError {
    /// The system names no local data directory.
    NoDataDir,
    /// The cache directory could not be made.
    CacheDirFailed(String),
    /// The asset is in the cache and could not be read.
    CacheReadFailed(String),
    /// The asset was fetched and could not be written to the cache.
    CacheWriteFailed(String),
    /// The answer's body could not be read.
    BodyUnreadable,
    /// There is no such asset.
    NotFound,
    /// The answer was neither the asset nor "not found".
    FetchFailed,
}

/// An `AssetError` with its attached reason as a sequence of characters.
pub enum AssetErrorView {
    NoDataDir,
    CacheDirFailed(Seq<char>),
    CacheReadFailed(Seq<char>),
    CacheWriteFailed(Seq<char>),
    BodyUnreadable,
    NotFound,
    FetchFailed,
}

impl View for AssetError {
    type V = AssetErrorView;

    open spec fn view(&self) -> AssetErrorView {
        match self {
            AssetError::NoDataDir => AssetErrorView::NoDataDir,
            AssetError::CacheDirFailed(reason) => AssetErrorView::CacheDirFailed(reason@),
            AssetError::CacheReadFailed(reason) => AssetErrorView::CacheReadFailed(reason@),
            AssetError::CacheWriteFailed(reason) => AssetErrorView::CacheWriteFailed(reason@),
            AssetError::BodyUnreadable => AssetErrorView::BodyUnreadable,
            AssetError::NotFound => AssetErrorView::NotFound,
            AssetError::FetchFailed => AssetErrorView::FetchFailed,
        }
    }
}

/// The sentence that reports an error to whoever asked for the asset.
pub open spec fn asset_error_text(error: AssetErrorView) -> Seq<char> {
    match error {
        AssetErrorView::NoDataDir => "Failed to get local data directory"@,
        AssetErrorView::CacheDirFailed(reason) => "Creating the Fluster cache directory failed: "@
            + reason,
        AssetErrorView::CacheReadFailed(reason) => "Reading the cache file failed: "@ + reason,
        AssetErrorView::CacheWriteFailed(reason) => "Writing the cache file failed: "@ + reason,
        AssetErrorView::BodyUnreadable => "Failed to read asset data"@,
        AssetErrorView::NotFound => "Asset not found"@,
        AssetErrorView::FetchFailed => "Failed to fetch asset"@,
    }
}

impl AssetError {
    /// The sentence that reports this error.
    pub fn message(&self) -> (text: String)
        ensures
            text@ == asset_error_text(self@),
    {
        match self {
            AssetError::NoDataDir => String::from_str("Failed to get local data directory"),
            AssetError::CacheDirFailed(reason) => {
                let mut text = String::from_str("Creating the Fluster cache directory failed: ");
                text.append(reason.as_str());
                text
            },
            AssetError::CacheReadFailed(reason) => {
                let mut text = String::from_str("Reading the cache file failed: ");
                text.append(reason.as_str());
                text
            },
            AssetError::CacheWriteFailed(reason) => {
                let mut text = String::from_str("Writing the cache file failed: ");
                text.append(reason.as_str());
                text
            },
            AssetError::BodyUnreadable => String::from_str("Failed to read asset data"),
            AssetError::NotFound => String::from_str("Asset not found"),
            AssetError::FetchFailed => String::from_str("Failed to fetch asset"),
        }
    }
}

/// Where the serving of an asset stands.
#[derive(Clone, Copy, Debug, PartialEq, Eq)]
pub enum AssetState {
    /// The local data directory is being looked up.
    ResolvingDataDir,
    /// The cache directory is being made where it is missing.
    PreparingCache,
    /// The cache is being looked at.
    LookingUp,
    /// The asset is being read from the cache.
    ReadingCache,
    /// The asset is being asked for.
    Requesting,
    /// The body of the answer is being read.
    ReadingBody,
    /// The asset is being written to the cache.
    WritingCache,
    /// The asset was served.
    Served,
    /// The asset was not served.
    Failed,
}

/// What the asset service is told about the step under way.
#[derive(Debug)]
pub enum AssetEvent {
    /// The step is done.
    Completed,
    /// The step failed, in these words.
    Failed { reason: String },
    /// The local data directory was looked up.
    DataDir { available: bool },
    /// The cache was looked at.
    Cached { present: bool },
    /// The remote service answered with this status.
    Responded { status: u16 },
}

/// What the asset service asks for next.
#[derive(Debug)]
pub enum AssetAction {
    /// Look up the local data directory, then report `DataDir`.
    ResolveDataDir,
    /// Make the cache directory where it is missing.
    PrepareCache,
    /// See whether the cache holds a file of this name, then report `Cached`.
    LookUp(String),
    /// Read the asset from the cache.
    ReadCache,
    /// Ask for this address, then report `Responded`, or `Failed` where no
    /// answer came.
    Request(String),
    /// Read the body of the answer.
    ReadBody,
    /// Write the body to the cache.
    WriteCache,
    /// Answer with the asset.
    Serve,
    /// Answer with this error.
    Fail(AssetError),
    /// Nothing: the event does not belong to the step under way.
    Idle,
}

/// An `AssetAction` with its texts as sequences of characters.
pub enum AssetActionView {
    ResolveDataDir,
    PrepareCache,
    LookUp(Seq<char>),
    ReadCache,
    Request(Seq<char>),
    ReadBody,
    WriteCache,
    Serve,
    Fail(AssetErrorView),
    Idle,
}

impl View for AssetAction {
    type V = AssetActionView;

    open spec fn view(&self) -> AssetActionView {
        match self {
            AssetAction::ResolveDataDir => AssetActionView::ResolveDataDir,
            AssetAction::PrepareCache => AssetActionView::PrepareCache,
            AssetAction::LookUp(key) => AssetActionView::LookUp(key@),
            AssetAction::ReadCache => AssetActionView::ReadCache,
            AssetAction::Request(url) => AssetActionView::Request(url@),
            AssetAction::ReadBody => AssetActionView::ReadBody,
            AssetAction::WriteCache => AssetActionView::WriteCache,
            AssetAction::Serve => AssetActionView::Serve,
            AssetAction::Fail(error) => AssetActionView::Fail(error@),
            AssetAction::Idle => AssetActionView::Idle,
        }
    }
}

/// The state that follows `state` on `event`, and what is asked for, while
/// the asset `id` is served.
pub open spec fn asset_next(state: AssetState, event: AssetEvent, id: usize) -> (
    AssetState,
    AssetActionView,
) {
    match (state, event) {
        (AssetState::ResolvingDataDir, AssetEvent::DataDir { available }) => if available {
            (AssetState::PreparingCache, AssetActionView::PrepareCache)
        } else {
            (AssetState::Failed, AssetActionView::Fail(AssetErrorView::NoDataDir))
        },
        (AssetState::PreparingCache, AssetEvent::Completed) => (
            AssetState::LookingUp,
            AssetActionView::LookUp(cache_key(id)),
        ),
        (AssetState::PreparingCache, AssetEvent::Failed { reason }) => (
            AssetState::Failed,
            AssetActionView::Fail(AssetErrorView::CacheDirFailed(reason@)),
        ),
        (AssetState::LookingUp, AssetEvent::Cached { present }) => if present {
            (AssetState::ReadingCache, AssetActionView::ReadCache)
        } else {
            (AssetState::Requesting, AssetActionView::Request(asset_address(id)))
        },
        (AssetState::ReadingCache, AssetEvent::Completed) => (
            AssetState::Served,
            AssetActionView::Serve,
        ),
        (AssetState::ReadingCache, AssetEvent::Failed { reason }) => (
            AssetState::Failed,
            AssetActionView::Fail(AssetErrorView::CacheReadFailed(reason@)),
        ),
        (AssetState::Requesting, AssetEvent::Responded { status }) => if status == 200 {
            (AssetState::ReadingBody, AssetActionView::ReadBody)
        } else if status == 404 {
            (AssetState::Failed, AssetActionView::Fail(AssetErrorView::NotFound))
        } else {
            (AssetState::Failed, AssetActionView::Fail(AssetErrorView::FetchFailed))
        },
        (AssetState::Requesting, AssetEvent::Failed { reason }) => (
            AssetState::Failed,
            AssetActionView::Fail(AssetErrorView::FetchFailed),
        ),
        (AssetState::ReadingBody, AssetEvent::Completed) => (
            AssetState::WritingCache,
            AssetActionView::WriteCache,
        ),
        (AssetState::ReadingBody, AssetEvent::Failed { reason }) => (
            AssetState::Failed,
            AssetActionView::Fail(AssetErrorView::BodyUnreadable),
        ),
        (AssetState::WritingCache, AssetEvent::Completed) => (
            AssetState::Served,
            AssetActionView::Serve,
        ),
        (AssetState::WritingCache, AssetEvent::Failed { reason }) => (
            AssetState::Failed,
            AssetActionView::Fail(AssetErrorView::CacheWriteFailed(reason@)),
        ),
        _ => (state, AssetActionView::Idle),
    }
}

/// Begins to serve an asset: the local data directory is looked up first.
pub fn asset_start() -> (begin: (AssetState, AssetAction))
    ensures
        begin.0 == AssetState::ResolvingDataDir,
        begin.1@ == AssetActionView::ResolveDataDir,
{
    (AssetState::ResolvingDataDir, AssetAction::ResolveDataDir)
}

/// Takes one event: gives the next state and what to do next.
pub fn asset_step(state: AssetState, event: AssetEvent, id: usize) -> (next: (
    AssetState,
    AssetAction,
))
    ensures
        (next.0, next.1@) == asset_next(state, event, id),
{
    match state {
        AssetState::ResolvingDataDir => match event {
            AssetEvent::DataDir { available } => {
                if available {
                    (AssetState::PreparingCache, AssetAction::PrepareCache)
                } else {
                    (AssetState::Failed, AssetAction::Fail(AssetError::NoDataDir))
                }
            },
            _ => (state, AssetAction::Idle),
        },
        AssetState::PreparingCache => match event {
            AssetEvent::Completed => (
                AssetState::LookingUp,
                AssetAction::LookUp(asset_cache_key(id)),
            ),
            AssetEvent::Failed { reason } => (
                AssetState::Failed,
                AssetAction::Fail(AssetError::CacheDirFailed(reason)),
            ),
            _ => (state, AssetAction::Idle),
        },
        AssetState::LookingUp => match event {
            AssetEvent::Cached { present } => {
                if present {
                    (AssetState::ReadingCache, AssetAction::ReadCache)
                } else {
                    (AssetState::Requesting, AssetAction::Request(asset_url(id)))
                }
            },
            _ => (state, AssetAction::Idle),
        },
        AssetState::ReadingCache => match event {
            AssetEvent::Completed => (AssetState::Served, AssetAction::Serve),
            AssetEvent::Failed { reason } => (
                AssetState::Failed,
                AssetAction::Fail(AssetError::CacheReadFailed(reason)),
            ),
            _ => (state, AssetAction::Idle),
        },
        AssetState::Requesting => match event {
            AssetEvent::Responded { status } => {
                if status == 200 {
                    (AssetState::ReadingBody, AssetAction::ReadBody)
                } else if status == 404 {
                    (AssetState::Failed, AssetAction::Fail(AssetError::NotFound))
                } else {
                    (AssetState::Failed, AssetAction::Fail(AssetError::FetchFailed))
                }
            },
            AssetEvent::Failed { reason } => (
                AssetState::Failed,
                AssetAction::Fail(AssetError::FetchFailed),
            ),
            _ => (state, AssetAction::Idle),
        },
        AssetState::ReadingBody => match event {
            AssetEvent::Completed => (AssetState::WritingCache, AssetAction::WriteCache),
            AssetEvent::Failed { reason } => (
                AssetState::Failed,
                AssetAction::Fail(AssetError::BodyUnreadable),
            ),
            _ => (state, AssetAction::Idle),
        },
        AssetState::WritingCache => match event {
            AssetEvent::Completed => (AssetState::Served, AssetAction::Serve),
            AssetEvent::Failed { reason } => (
                AssetState::Failed,
                AssetAction::Fail(AssetError::CacheWriteFailed(reason)),
            ),
            _ => (state, AssetAction::Idle),
        },
        AssetState::Served => (state, AssetAction::Idle),
        AssetState::Failed => (state, AssetAction::Idle),
    }
}

/// An asset that the cache holds is served from the cache: nothing is asked
/// of the remote service.
pub proof fn lemma_cached_asset_is_not_fetched(id: usize)
    ensures
        asset_next(AssetState::LookingUp, AssetEvent::Cached { present: true }, id) == (
            AssetState::ReadingCache,
            AssetActionView::ReadCache,
        ),
        asset_next(AssetState::ReadingCache, AssetEvent::Completed, id) == (
            AssetState::Served,
            AssetActionView::Serve,
        ),
{
}

} // verus!
