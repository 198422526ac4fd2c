//! Media stored on the file system: avatars and attachments.
//!
//! Each asset is stored in its directory as a file named by the asset's ID and
//! file extension, next to an info file named by the ID with the suffix
//! `_info.json`. Paths are lists of components: the absolute paths start with
//! the data root directory, the relative ones start below it.
use vstd::prelude::*;

use crate::chat::clone_opt_str;
use crate::text::str_equal;

verus! {

/// The suffix of an asset's info file name, before the `.json` extension.
pub const INFO_FILE_SUFFIX: &'static str = "_info";

/// The directory of room avatars, in the media directory.
pub const ROOM_AVATARS_FOLDER: &'static str = "room_avatars";

/// The directory of user avatars, in the media directory.
pub const USER_AVATARS_FOLDER: &'static str = "user_avatars";

/// The directory of attachments, in the media directory.
pub const ATTACHMENTS_FOLDER: &'static str = "attachments";

/// The media type assumed where none can be guessed.
pub const DEFAULT_MIME: &'static str = "application/octet-stream";

/// Why a media operation failed.
#[derive(Debug, PartialEq, Eq)]
pub enum MediaError {
    /// The requested resource was not found.
    NotFound,
    /// The downloaded resource was removed from the upstream server.
    Removed,
    /// The file extension of the data could not be determined.
    UnableToDetermineFileExtension,
    /// The media type of the data could not be determined.
    UnableToDetermineMimeType,
    /// The requested operation is not allowed.
    NotAllowed,
    /// The avatar URI of the requested user could not be retrieved.
    UnableToGetAvatarUri,
    /// The ID of the asset is not specified.
    AssetIdNotSpecified,
    /// Reading or writing a file failed, with the reason.
    Io(String),
    /// Serializing or deserializing failed, with the reason.
    SerdeJson(String),
    /// The Matrix server or client failed, with the reason.
    MatrixError(String),
}

impl MediaError {
    /// A copy of the error.
    pub fn copied(&self) -> (r: MediaError)
        ensures
            r == *self,
    {
        match self {
            MediaError::NotFound => MediaError::NotFound,
            MediaError::Removed => MediaError::Removed,
            MediaError::UnableToDetermineFileExtension => MediaError::UnableToDetermineFileExtension,
            MediaError::UnableToDetermineMimeType => MediaError::UnableToDetermineMimeType,
            MediaError::NotAllowed => MediaError::NotAllowed,
            MediaError::UnableToGetAvatarUri => MediaError::UnableToGetAvatarUri,
            MediaError::AssetIdNotSpecified => MediaError::AssetIdNotSpecified,
            MediaError::Io(m) => MediaError::Io(m.clone()),
            MediaError::SerdeJson(m) => MediaError::SerdeJson(m.clone()),
            MediaError::MatrixError(m) => MediaError::MatrixError(m.clone()),
        }
    }
}

// ---------------------------------------------------------------------------
// File extensions and media types
// ---------------------------------------------------------------------------

/// The extension that `infer` determines for the data by its leading bytes.
pub uninterp spec fn inferred_extension(data: Seq<u8>) -> Option<Seq<char>>;

/// The media type that `mime_guess` lists first for the extension.
pub uninterp spec fn guessed_media_type(ext: Seq<char>) -> Option<Seq<char>>;

/// `infer::get` with `Type::extension`: the extension of the file type that
/// `infer` recognizes in the data, if it recognizes one. The result depends on
/// the data alone; what it is for given data is left to `infer`.
#[verifier::external_body]
fn infer_extension(data: &[u8]) -> (r: Option<String>)
    ensures
        r.deep_view() == inferred_extension(data@),
{
    infer::get(data).map(|kind| kind.extension().to_string())
}

/// `mime_guess::from_ext` with `MimeGuess::first_raw`: the first media type
/// known for the extension, if any. The result depends on the extension
/// alone; an empty extension has none.
#[verifier::external_body]
fn guess_media_type(ext: &str) -> (r: Option<String>)
    ensures
        r.deep_view() == guessed_media_type(ext@),
        ext@.len() == 0 ==> r is None,
{
    mime_guess::from_ext(ext).first_raw().map(|m| m.to_string())
}

/// The index just after the last dot of the text, or 0 where it has none.
pub open spec fn extension_start(p: Seq<char>) -> int
    decreases p.len(),
{
    if p.len() == 0 {
        0
    } else if p.last() == '.' {
        p.len() as int
    } else {
        extension_start(p.drop_last())
    }
}

/// The extension of a file name: the part after its last dot, where that
/// dot does not start the name; none where the name has no dot, or only one
/// that starts it.
pub open spec fn name_extension(name: Seq<char>) -> Option<Seq<char>> {
    let k = extension_start(name);
    if k <= 1 {
        None
    } else {
        Some(name.subrange(k, name.len() as int))
    }
}

/// The last `/`-separated part of the path.
pub open spec fn last_part(p: Seq<char>) -> Seq<char> {
    p.subrange(file_name_start(p), p.len() as int)
}

/// A path whose file name is its last `/`-separated part on every platform:
/// it holds no `\` (a separator on Windows) and no `:` (which could start a
/// Windows prefix), it does not start with `//` (which could start a network
/// prefix), and its last part is not empty, `.` or `..`, so that no trailing
/// separator or special component stands in the file name's place.
pub open spec fn portable_file_path(p: Seq<char>) -> bool {
    &&& !p.contains('\\')
    &&& !p.contains(':')
    &&& !(p.len() >= 2 && p[0] == '/' && p[1] == '/')
    &&& last_part(p).len() > 0
    &&& last_part(p) != seq!['.']
    &&& last_part(p) != seq!['.', '.']
}

/// A dot followed by the text occurs in the path.
pub open spec fn dot_then_occurs(p: Seq<char>, e: Seq<char>) -> bool {
    exists|i: int| 0 <= i && i + e.len() + 1 <= p.len() && #[trigger] p.subrange(i, i + e.len() + 1) == seq!['.'] + e
}

/// `Path::extension`: the part of the path's file name after its last dot,
/// where the file name has one that does not start it. Which part of the
/// path is the file name depends on the platform's separators and prefixes.
/// On every platform the extension follows a dot in the path and holds no
/// dot, a path without a dot has none, and for a path that every platform
/// reads alike (`portable_file_path`) the extension is `name_extension` of
/// its last `/`-separated part. For other paths (holding `\` or `:`,
/// starting with `//`, or ending in a separator, `.` or `..`), which
/// extension comes back is not stated further.
#[verifier::external_body]
fn path_extension(path: &str) -> (r: Option<String>)
    ensures
        r matches Some(e) ==> !e@.contains('.') && dot_then_occurs(path@, e@),
        !path@.contains('.') ==> r is None,
        portable_file_path(path@) ==> r.deep_view() == name_extension(last_part(path@)),
{
    std::path::Path::new(path).extension().map(|e| e.to_string_lossy().to_string())
}

/// What the extension determined from a path, or else from the data, is:
/// that of the path where it has one, else the one recognized in the data.
/// For a path that every platform reads alike this is exact; for other
/// paths a result other than the data's is an extension that follows a dot
/// in the path.
pub open spec fn determined_extension(path: Seq<char>, data: Seq<u8>, r: Option<Seq<char>>) -> bool {
    &&& !path.contains('.') ==> r == inferred_extension(data)
    &&& portable_file_path(path) ==> r == match name_extension(last_part(path)) {
        Some(e) => Some(e),
        None => inferred_extension(data),
    }
    &&& r is None ==> inferred_extension(data) is None
    &&& r != inferred_extension(data) ==> (r matches Some(e) && !e.contains('.') && dot_then_occurs(path, e))
}

/// The extension of the file type recognized in the data, if any.
pub fn determine_file_extension_from_data(data: &[u8]) -> (r: Option<String>)
    ensures
        r.deep_view() == inferred_extension(data@),
{
    infer_extension(data)
}

/// The extension of the path, or else the one recognized in the data.
pub fn determine_file_extension_with_path(data: &[u8], path: &str) -> (r: Option<String>)
    ensures
        determined_extension(path@, data@, r.deep_view()),
{
    match path_extension(path) {
        Some(e) => Some(e),
        None => determine_file_extension_from_data(data),
    }
}

/// The file extension, determined from the path or else the data, and the
/// media type guessed from it, or the default type where there is no
/// extension or no guess.
pub fn determine_file_extension_and_mime(data: &[u8], path: &str) -> (r: (Option<String>, String))
    ensures
        determined_extension(path@, data@, r.0.deep_view()),
        r.0 is None ==> r.1@ == DEFAULT_MIME@,
        r.0 matches Some(e) ==> r.1@ == match guessed_media_type(e@) {
            Some(m) => m,
            None => DEFAULT_MIME@,
        },
{
    let file_extension = match determine_file_extension_with_path(data, path) {
        Some(e) => e,
        None => {
            return (None, DEFAULT_MIME.to_string());
        },
    };
    let mime = match guess_media_type(file_extension.as_str()) {
        Some(m) => m,
        None => DEFAULT_MIME.to_string(),
    };
    (Some(file_extension), mime)
}

// ---------------------------------------------------------------------------
// Paths
// ---------------------------------------------------------------------------

/// The path that `part` names relative to `base`: `part` itself where it is
/// absolute or `base` is empty, else the two joined by one `/`.
pub open spec fn joined_path(base: Seq<char>, part: Seq<char>) -> Seq<char> {
    if part.len() > 0 && part[0] == '/' {
        part
    } else if base.len() == 0 {
        part
    } else if base.last() == '/' {
        base + part
    } else {
        base + seq!['/'] + part
    }
}

/// The index at which the last component of the path starts: just after
/// its last `/`, or 0 where it has none.
pub open spec fn file_name_start(p: Seq<char>) -> int
    decreases p.len(),
{
    if p.len() == 0 {
        0
    } else if p.last() == '/' {
        p.len() as int
    } else {
        file_name_start(p.drop_last())
    }
}

/// The path with its last component replaced by `name`.
pub open spec fn with_file_name(p: Seq<char>, name: Seq<char>) -> Seq<char> {
    p.subrange(0, file_name_start(p)) + name
}

/// Joins `part` onto `base`, as `PathBuf::push` does with `/` separators.
pub fn join_path(base: &str, part: &str) -> (r: String)
    ensures
        r@ == joined_path(base@, part@),
{
    let part_len = part.unicode_len();
    if part_len > 0 && part.get_char(0) == '/' {
        return String::from_str(part);
    }
    let base_len = base.unicode_len();
    if base_len == 0 {
        return String::from_str(part);
    }
    let mut r = String::from_str(base);
    if base.get_char(base_len - 1) != '/' {
        r.append("/");
        proof {
            reveal_strlit("/");
        }
    }
    r.append(part);
    proof {
        assert(base@.last() == base@[base_len - 1]);
    }
    r
}

/// Replaces the last component of the path by `name`, as
/// `PathBuf::set_file_name` does on a path whose last component is a file.
pub fn replace_file_name(path: &str, name: &str) -> (r: String)
    ensures
        r@ == with_file_name(path@, name@),
{
    let n = path.unicode_len();
    let mut i = n;
    proof {
        assert(path@.subrange(0, n as int) =~= path@);
    }
    while i > 0 && path.get_char(i - 1) != '/'
        invariant
            i <= n,
            n == path@.len(),
            file_name_start(path@.subrange(0, i as int)) == file_name_start(path@),
        decreases i,
    {
        proof {
            let sub = path@.subrange(0, i as int);
            assert(sub.drop_last() =~= path@.subrange(0, i - 1));
            assert(sub.last() == path@[i - 1]);
        }
        i = i - 1;
    }
    proof {
        let sub = path@.subrange(0, i as int);
        assert(path@.subrange(0, n as int) =~= path@);
        if i > 0 {
            assert(sub.last() == path@[i - 1]);
        }
        assert(file_name_start(sub) == i);
    }
    let head = path.substring_char(0, i);
    let mut r = String::from_str(head);
    r.append(name);
    r
}

// ---------------------------------------------------------------------------
// Assets
// ---------------------------------------------------------------------------

/// What is stored beside a downloaded or uploaded asset.
pub struct AssetInfo {
    /// The name of the asset's file, in the same directory as the info.
    pub file: String,
    /// The UNIX time in seconds at which the asset was stored.
    pub download_ts: u64,
    /// The upstream URL of the asset.
    pub upstream_url: String,
}

/// The result of downloading an asset.
pub struct Download {
    /// The downloaded data.
    pub data: Vec<u8>,
    /// The file extension to store the data under.
    pub file_extension: Option<String>,
    /// The upstream URL of the asset.
    pub upstream_url: String,
}

/// The result of uploading an asset.
pub struct Upload {
    /// The file extension to store the uploaded file under.
    pub file_extension: Option<String>,
    /// The upstream URL of the uploaded asset.
    pub upstream_url: String,
}

/// An object that is downloaded from or uploaded to the server and stored
/// under an ID.
pub trait Asset {
    /// The asset's ID, where it has one.
    spec fn id_spec(&self) -> Option<Seq<char>>;

    /// The asset's ID, or an error where it has none.
    fn asset_id(&self) -> (r: Result<String, MediaError>)
        ensures
            match r {
                Ok(id) => self.id_spec() == Some(id@),
                Err(_) => self.id_spec() is None,
            },
    ;
}

/// The avatar of a room, stored under the room's ID.
pub struct RoomAvatarAsset {
    /// The ID of the room.
    pub id: String,
}

impl RoomAvatarAsset {
    pub fn new(room_id: String) -> (r: Self)
        ensures
            r.id == room_id,
    {
        RoomAvatarAsset { id: room_id }
    }

    /// Whether the stored avatar is the room's current one, given the URL of
    /// the current one, if the room has an avatar.
    pub fn is_up_to_date(&self, avatar_url: &Option<String>, info: &AssetInfo) -> (r: Result<bool, MediaError>)
        ensures
            r == Ok::<bool, MediaError>(match avatar_url {
                Some(url) => url@ == info.upstream_url@,
                None => false,
            }),
    {
        match avatar_url {
            Some(url) => Ok(str_equal(url.as_str(), info.upstream_url.as_str())),
            None => Ok(false),
        }
    }

    /// Whether the room's avatar was removed: the room has none.
    pub fn was_removed(&self, avatar_url: &Option<String>) -> (r: bool)
        ensures
            r == avatar_url.is_none(),
    {
        avatar_url.is_none()
    }
}

impl Asset for RoomAvatarAsset {
    open spec fn id_spec(&self) -> Option<Seq<char>> {
        Some(self.id@)
    }

    fn asset_id(&self) -> (r: Result<String, MediaError>) {
        Ok(self.id.clone())
    }
}

/// The avatar of a user, stored under the user's ID.
pub struct UserAvatarAsset {
    /// The ID of the user.
    pub user_id: String,
    /// The avatar URI once it was fetched: `Some(None)` where the user has no
    /// avatar.
    pub avatar_uri: Option<Option<String>>,
}

impl UserAvatarAsset {
    /// The asset of the user, with the avatar URI if it was fetched.
    pub fn new(user_id: String, avatar_uri: Option<Option<String>>) -> (r: Self)
        ensures
            r.user_id == user_id,
            r.avatar_uri == avatar_uri,
    {
        UserAvatarAsset { user_id, avatar_uri }
    }

    /// The avatar URI, where it was fetched before.
    pub fn cached_avatar_uri(&self) -> (r: Option<Option<String>>)
        ensures
            r == self.avatar_uri,
    {
        match &self.avatar_uri {
            Some(u) => Some(clone_opt_str(u)),
            None => None,
        }
    }

    /// Takes the outcome of fetching the avatar URI: keeps it where the fetch
    /// succeeded and answers with it, else with `UnableToGetAvatarUri`.
    pub fn record_avatar_uri(&mut self, fetched: Result<Option<String>, ()>) -> (r: Result<Option<String>, MediaError>)
        ensures
            final(self).user_id == old(self).user_id,
            match fetched {
                Ok(u) => final(self).avatar_uri == Some(u) && r == Ok::<Option<String>, MediaError>(u),
                Err(_) => final(self).avatar_uri == old(self).avatar_uri
                    && r == Err::<Option<String>, MediaError>(MediaError::UnableToGetAvatarUri),
            },
    {
        match fetched {
            Ok(u) => {
                let kept = clone_opt_str(&u);
                self.avatar_uri = Some(kept);
                Ok(u)
            },
            Err(_) => Err(MediaError::UnableToGetAvatarUri),
        }
    }
}

impl Asset for UserAvatarAsset {
    open spec fn id_spec(&self) -> Option<Seq<char>> {
        Some(self.user_id@)
    }

    fn asset_id(&self) -> (r: Result<String, MediaError>) {
        Ok(self.user_id.clone())
    }
}

impl UserAvatarAsset {
    /// Whether the stored avatar is the user's current one, given the
    /// outcome of getting the avatar URI.
    pub fn is_up_to_date(&self, avatar_uri: &Result<Option<String>, MediaError>, info: &AssetInfo) -> (r: Result<bool, MediaError>)
        ensures
            match avatar_uri {
                Ok(Some(uri)) => r == Ok::<bool, MediaError>(uri@ == info.upstream_url@),
                Ok(None) => r == Ok::<bool, MediaError>(false),
                Err(e) => r == Err::<bool, MediaError>(*e),
            },
    {
        match avatar_uri {
            Ok(Some(uri)) => Ok(str_equal(uri.as_str(), info.upstream_url.as_str())),
            Ok(None) => Ok(false),
            Err(e) => Err(e.copied()),
        }
    }

    /// Whether the user's avatar was removed: the user is known to have none.
    pub fn was_removed(&self, avatar_uri: &Result<Option<String>, MediaError>) -> (r: bool)
        ensures
            r == (avatar_uri matches Ok(None)),
    {
        matches!(avatar_uri, Ok(None))
    }

    /// Uploading another user's avatar is not allowed.
    pub fn upload(&self) -> (r: Result<Upload, MediaError>)
        ensures
            r matches Err(MediaError::NotAllowed),
    {
        Err(MediaError::NotAllowed)
    }
}

/// An attachment sent to a room, stored under the ID of the message that
/// carries it once it was sent.
pub struct RoomAttachmentAsset {
    /// The ID of the message that carries the attachment, once it was sent.
    pub asset_id: Option<String>,
    /// The name under which the file is sent.
    pub file_name: Option<String>,
    /// The message that the attachment replies to.
    pub reply_to: Option<String>,
}

impl RoomAttachmentAsset {
    pub fn new(file_name: Option<String>) -> (r: Self)
        ensures
            r.asset_id is None,
            r.file_name == file_name,
            r.reply_to is None,
    {
        RoomAttachmentAsset { asset_id: None, file_name, reply_to: None }
    }

    /// The same attachment, sent as a reply to the message.
    pub fn reply_to(self, event_id: String) -> (r: Self)
        ensures
            r.asset_id == self.asset_id,
            r.file_name == self.file_name,
            r.reply_to == Some(event_id),
    {
        RoomAttachmentAsset { reply_to: Some(event_id), ..self }
    }

    /// Records the ID of the message that carried the attachment.
    pub fn record_sent_message(&mut self, event_id: String)
        ensures
            final(self).asset_id == Some(event_id),
            final(self).file_name == old(self).file_name,
            final(self).reply_to == old(self).reply_to,
    {
        self.asset_id = Some(event_id);
    }

    /// A sent attachment does not change.
    pub fn is_up_to_date(&self, info: &AssetInfo) -> (r: Result<bool, MediaError>)
        ensures
            r == Ok::<bool, MediaError>(true),
    {
        Ok(true)
    }

    /// A sent attachment is not removed.
    pub fn was_removed(&self) -> (r: bool)
        ensures
            !r,
    {
        false
    }

    /// Downloading through an attachment that is being sent is not allowed.
    pub fn download(&self) -> (r: Result<Download, MediaError>)
        ensures
            r matches Err(MediaError::NotAllowed),
    {
        Err(MediaError::NotAllowed)
    }
}

impl Asset for RoomAttachmentAsset {
    open spec fn id_spec(&self) -> Option<Seq<char>> {
        match self.asset_id {
            Some(id) => Some(id@),
            None => None,
        }
    }

    fn asset_id(&self) -> (r: Result<String, MediaError>)
        ensures
            self.asset_id is None ==> r matches Err(MediaError::AssetIdNotSpecified),
    {
        match &self.asset_id {
            Some(id) => Ok(id.clone()),
            None => Err(MediaError::AssetIdNotSpecified),
        }
    }
}

/// The media of a message, stored under the message's ID.
pub struct MediaEventAsset {
    /// The ID of the message.
    pub asset_id: String,
    /// The file name given in the message, if any.
    pub file_name: Option<String>,
}

impl MediaEventAsset {
    pub fn new(asset_id: String, file_name: Option<String>) -> (r: Self)
        ensures
            r.asset_id == asset_id,
            r.file_name == file_name,
    {
        MediaEventAsset { asset_id, file_name }
    }

    /// Whether the stored media is the message's current one, given the
    /// outcome of getting the media's upstream URL from the message.
    pub fn is_up_to_date(&self, upstream_url: &Result<String, MediaError>, info: &AssetInfo) -> (r: Result<bool, MediaError>)
        ensures
            match upstream_url {
                Ok(url) => r == Ok::<bool, MediaError>(url@ == info.upstream_url@),
                Err(e) => r == Err::<bool, MediaError>(*e),
            },
    {
        match upstream_url {
            Ok(url) => Ok(str_equal(url.as_str(), info.upstream_url.as_str())),
            Err(e) => Err(e.copied()),
        }
    }

    /// Whether the media was removed: the message names no source.
    pub fn was_removed(&self, upstream_url: &Result<String, MediaError>) -> (r: bool)
        ensures
            r == (upstream_url matches Err(MediaError::NotFound)),
    {
        matches!(upstream_url, Err(MediaError::NotFound))
    }

    /// The file extension of downloaded media: that of the message's file
    /// name, or else the one recognized in the data.
    pub fn downloaded_extension(&self, data: &[u8]) -> (r: Option<String>)
        ensures
            self.file_name is None ==> r.deep_view() == inferred_extension(data@),
            self.file_name matches Some(f) ==> determined_extension(f@, data@, r.deep_view()),
    {
        match &self.file_name {
            Some(f) => determine_file_extension_with_path(data, f.as_str()),
            None => determine_file_extension_from_data(data),
        }
    }

    /// Uploading through a message's media is not allowed.
    pub fn upload(&self) -> (r: Result<Upload, MediaError>)
        ensures
            r matches Err(MediaError::NotAllowed),
    {
        Err(MediaError::NotAllowed)
    }
}

impl Asset for MediaEventAsset {
    open spec fn id_spec(&self) -> Option<Seq<char>> {
        Some(self.asset_id@)
    }

    fn asset_id(&self) -> (r: Result<String, MediaError>) {
        Ok(self.asset_id.clone())
    }
}

// ---------------------------------------------------------------------------
// Asset manager
// ---------------------------------------------------------------------------

/// The name of the info file of the asset with the ID.
pub open spec fn info_file_name(id: Seq<char>) -> Seq<char> {
    id + INFO_FILE_SUFFIX@ + ".json"@
}

/// The name of the file of the asset with the ID and file extension.
pub open spec fn asset_file_name(id: Seq<char>, extension: Option<Seq<char>>) -> Seq<char> {
    match extension {
        Some(e) => id + "."@ + e,
        None => id,
    }
}

/// Where an asset and its info are stored, and the info itself.
pub struct StoredAsset {
    /// The info to store beside the asset.
    pub info: AssetInfo,
    /// The absolute path of the info file.
    pub info_path: String,
    /// The absolute path of the asset's file.
    pub asset_path: String,
    /// The path of the asset's file below the data root directory.
    pub relative_path: String,
}

/// What a stored asset means for a request to download it.
pub enum PreviousDownload {
    /// The stored asset is current: the path below the data root directory
    /// to answer with, or the reason there is none.
    Current(Result<String, MediaError>),
    /// The stored asset is outdated.
    Outdated,
}

/// What a download does once the stored asset turned out to be outdated.
#[derive(Debug)]
pub enum OutdatedStep {
    /// Delete the stored asset and its info, and answer with the error.
    DeleteAndFail(MediaError),
    /// Download the asset anew.
    Download,
}

/// The step after finding the stored asset outdated, given whether the
/// upstream server removed it: an asset that was removed is deleted and
/// the download fails; any other is downloaded anew.
pub fn outdated_step(was_removed: bool) -> (r: OutdatedStep)
    ensures
        was_removed ==> r matches OutdatedStep::DeleteAndFail(MediaError::Removed),
        !was_removed ==> r is Download,
{
    if was_removed {
        OutdatedStep::DeleteAndFail(MediaError::Removed)
    } else {
        OutdatedStep::Download
    }
}

/// Manages the files of one asset below a directory.
pub struct AssetManager<T: Asset> {
    data_root_dir: String,
    asset_dir: String,
    asset: T,
}

impl<T: Asset> AssetManager<T> {
    /// The absolute path of the data root directory.
    pub closed spec fn root(&self) -> Seq<char> {
        self.data_root_dir@
    }

    /// The path of the asset's directory below the data root directory.
    pub closed spec fn dir(&self) -> Seq<char> {
        self.asset_dir@
    }

    /// The managed asset.
    pub closed spec fn managed(&self) -> T {
        self.asset
    }

    /// The absolute path of the asset's directory.
    pub open spec fn dir_absolute(&self) -> Seq<char> {
        joined_path(self.root(), self.dir())
    }

    /// The absolute path of the info file of the asset with the ID.
    pub open spec fn info_path_absolute(&self, id: Seq<char>) -> Seq<char> {
        joined_path(self.dir_absolute(), info_file_name(id))
    }

    /// The path of the info file of the asset with the ID, below the data
    /// root directory.
    pub open spec fn info_path_relative(&self, id: Seq<char>) -> Seq<char> {
        joined_path(self.dir(), info_file_name(id))
    }

    /// A manager of the asset in the directory `asset_dir` below
    /// `data_root_dir`.
    pub fn new(data_root_dir: String, asset_dir: String, asset: T) -> (r: Self)
        ensures
            r.root() == data_root_dir@,
            r.dir() == asset_dir@,
            r.managed() == asset,
    {
        AssetManager { data_root_dir, asset_dir, asset }
    }

    /// The managed asset.
    pub fn asset(&self) -> (r: &T)
        ensures
            *r == self.managed(),
    {
        &self.asset
    }

    /// The managed asset, to change it.
    pub fn asset_mut(&mut self) -> (r: &mut T)
        ensures
            *r == old(self).managed(),
            final(self).managed() == *final(r),
            final(self).root() == old(self).root(),
            final(self).dir() == old(self).dir(),
    {
        &mut self.asset
    }

    /// The name of the asset's info file.
    pub fn get_info_file_name(&self) -> (r: Result<String, MediaError>)
        ensures
            match r {
                Ok(name) => self.managed().id_spec() matches Some(id) && name@ == info_file_name(id),
                Err(_) => self.managed().id_spec() is None,
            },
    {
        let asset_id = self.asset.asset_id()?;
        let mut name = String::from_str(asset_id.as_str());
        name.append(INFO_FILE_SUFFIX);
        name.append(".json");
        Ok(name)
    }

    /// The name of the asset's file with the extension.
    pub fn get_asset_file_name(&self, extension: Option<&str>) -> (r: Result<String, MediaError>)
        ensures
            match r {
                Ok(name) => self.managed().id_spec() matches Some(id) && name@ == asset_file_name(
                    id,
                    match extension {
                        Some(e) => Some(e@),
                        None => None,
                    },
                ),
                Err(_) => self.managed().id_spec() is None,
            },
    {
        let asset_id = self.asset.asset_id()?;
        match extension {
            Some(e) => {
                let mut name = String::from_str(asset_id.as_str());
                name.append(".");
                name.append(e);
                Ok(name)
            },
            None => Ok(asset_id),
        }
    }

    /// The asset's directory below the data root directory.
    pub fn get_download_dir_relative(&self) -> (r: String)
        ensures
            r@ == self.dir(),
    {
        self.asset_dir.clone()
    }

    /// The absolute path of the asset's directory.
    pub fn get_download_dir_absolute(&self) -> (r: String)
        ensures
            r@ == self.dir_absolute(),
    {
        let relative = self.get_download_dir_relative();
        join_path(self.data_root_dir.as_str(), relative.as_str())
    }

    /// The absolute path of the asset's info file.
    pub fn get_info_path_absolute(&self) -> (r: Result<String, MediaError>)
        ensures
            match r {
                Ok(p) => self.managed().id_spec() matches Some(id) && p@ == self.info_path_absolute(id),
                Err(_) => self.managed().id_spec() is None,
            },
    {
        let file_name = self.get_info_file_name()?;
        let dir = self.get_download_dir_absolute();
        Ok(join_path(dir.as_str(), file_name.as_str()))
    }

    /// The path of the asset's info file below the data root directory.
    pub fn get_info_path_relative(&self) -> (r: Result<String, MediaError>)
        ensures
            match r {
                Ok(p) => self.managed().id_spec() matches Some(id) && p@ == self.info_path_relative(id),
                Err(_) => self.managed().id_spec() is None,
            },
    {
        let file_name = self.get_info_file_name()?;
        let dir = self.get_download_dir_relative();
        Ok(join_path(dir.as_str(), file_name.as_str()))
    }

    /// The absolute path of the asset's file with the name: beside the info
    /// file.
    pub fn get_asset_path_absolute(&self, file_name: &str) -> (r: Result<String, MediaError>)
        ensures
            match r {
                Ok(p) => self.managed().id_spec() matches Some(id) && p@ == with_file_name(
                    self.info_path_absolute(id),
                    file_name@,
                ),
                Err(_) => self.managed().id_spec() is None,
            },
    {
        let path = self.get_info_path_absolute()?;
        Ok(replace_file_name(path.as_str(), file_name))
    }

    /// The path of the asset's file with the name below the data root
    /// directory: beside the info file.
    pub fn get_asset_path_relative(&self, file_name: &str) -> (r: Result<String, MediaError>)
        ensures
            match r {
                Ok(p) => self.managed().id_spec() matches Some(id) && p@ == with_file_name(
                    self.info_path_relative(id),
                    file_name@,
                ),
                Err(_) => self.managed().id_spec() is None,
            },
    {
        let path = self.get_info_path_relative()?;
        Ok(replace_file_name(path.as_str(), file_name))
    }

    /// What the stored asset, described by its info, means for a request to
    /// download it, given the outcome of asking whether it is up to date. An
    /// asset whose check failed is taken to be up to date.
    pub fn check_previous_download(&self, info: &AssetInfo, up_to_date: Result<bool, MediaError>) -> (r: PreviousDownload)
        ensures
            up_to_date matches Ok(false) ==> r is Outdated,
            !(up_to_date matches Ok(false)) ==> (r matches PreviousDownload::Current(res) && match res {
                Ok(p) => self.managed().id_spec() matches Some(id) && p@ == with_file_name(
                    self.info_path_relative(id),
                    info.file@,
                ),
                Err(_) => self.managed().id_spec() is None,
            }),
    {
        let current = match up_to_date {
            Ok(b) => b,
            Err(_) => true,
        };
        if current {
            PreviousDownload::Current(self.get_asset_path_relative(info.file.as_str()))
        } else {
            PreviousDownload::Outdated
        }
    }

    /// Where a downloaded or uploaded file of the asset with the extension is
    /// stored, and the info stored beside it, written at the time `now`.
    pub fn plan_storage(&self, file_extension: Option<&str>, upstream_url: String, now: u64) -> (r: Result<StoredAsset, MediaError>)
        ensures
            r is Ok <==> self.managed().id_spec() is Some,
            r matches Ok(stored) ==> {
                let id = self.managed().id_spec()->0;
                &&& stored.info.file@ == asset_file_name(
                    id,
                    match file_extension {
                        Some(e) => Some(e@),
                        None => None,
                    },
                )
                &&& stored.info.download_ts == now
                &&& stored.info.upstream_url == upstream_url
                &&& stored.info_path@ == self.info_path_absolute(id)
                &&& stored.asset_path@ == with_file_name(self.info_path_absolute(id), stored.info.file@)
                &&& stored.relative_path@ == with_file_name(self.info_path_relative(id), stored.info.file@)
            },
    {
        let file = self.get_asset_file_name(file_extension)?;
        let info_path = self.get_info_path_absolute()?;
        let asset_path = self.get_asset_path_absolute(file.as_str())?;
        let relative_path = self.get_asset_path_relative(file.as_str())?;
        Ok(StoredAsset {
            info: AssetInfo { file, download_ts: now, upstream_url },
            info_path,
            asset_path,
            relative_path,
        })
    }
}


/// The directories of the media manager below the data root: those of room
/// avatars, user avatars and attachments, in the media directory.
pub struct MediaDirs {
    pub room_avatars_dir: String,
    pub user_avatars_dir: String,
    pub attachments_dir: String,
}

/// The directories of the media manager for the media directory below the
/// data root.
pub fn media_dirs(media_dir_relative: &str) -> (r: MediaDirs)
    ensures
        r.room_avatars_dir@ == joined_path(media_dir_relative@, ROOM_AVATARS_FOLDER@),
        r.user_avatars_dir@ == joined_path(media_dir_relative@, USER_AVATARS_FOLDER@),
        r.attachments_dir@ == joined_path(media_dir_relative@, ATTACHMENTS_FOLDER@),
{
    MediaDirs {
        room_avatars_dir: join_path(media_dir_relative, ROOM_AVATARS_FOLDER),
        user_avatars_dir: join_path(media_dir_relative, USER_AVATARS_FOLDER),
        attachments_dir: join_path(media_dir_relative, ATTACHMENTS_FOLDER),
    }
}

/// The directory of a room's attachments: named by the room's ID, in the
/// directory of attachments.
pub fn attachments_room_dir(attachments_dir: &str, room_id: &str) -> (r: String)
    ensures
        r@ == joined_path(attachments_dir@, room_id@),
{
    join_path(attachments_dir, room_id)
}


/// The path with a `/` at its end, unless it is empty or has one.
pub open spec fn with_separator(p: Seq<char>) -> Seq<char> {
    if p.len() == 0 || p.last() == '/' {
        p
    } else {
        p + seq!['/']
    }
}

proof fn lemma_file_name_start_of_name(p: Seq<char>, q: Seq<char>)
    requires
        !q.contains('/'),
    ensures
        file_name_start(p + q) == file_name_start(p),
    decreases q.len(),
{
    if q.len() == 0 {
        assert(p + q =~= p);
    } else {
        let pq = p + q;
        assert(pq.last() == q.last());
        assert(q.last() == q[q.len() - 1]);
        assert(pq.drop_last() =~= p + q.drop_last());
        assert forall|c: char| q.drop_last().contains(c) implies q.contains(c) by {
            let i = choose|i: int| 0 <= i < q.drop_last().len() && q.drop_last()[i] == c;
            assert(q[i] == c);
        }
        lemma_file_name_start_of_name(p, q.drop_last());
    }
}

proof fn lemma_with_file_name_after_separator(d: Seq<char>, name: Seq<char>, file: Seq<char>)
    requires
        d == with_separator(d),
        !name.contains('/'),
    ensures
        with_file_name(d + name, file) == d + file,
{
    lemma_file_name_start_of_name(d, name);
    if d.len() > 0 {
        assert(d.last() == '/');
    }
    assert((d + name).subrange(0, d.len() as int) =~= d);
}

/// The path of a stored asset below the data root, joined to the data root,
/// is its absolute path, for a data root that is not empty, a directory
/// below it that is not absolute, and an ID and file name without `/`.
pub proof fn lemma_relative_path_below_root(root: Seq<char>, dir: Seq<char>, id: Seq<char>, file: Seq<char>)
    requires
        root.len() > 0,
        !(dir.len() > 0 && dir[0] == '/'),
        !id.contains('/'),
        !file.contains('/'),
        file.len() > 0,
    ensures
        joined_path(root, with_file_name(joined_path(dir, info_file_name(id)), file)) == with_file_name(
            joined_path(joined_path(root, dir), info_file_name(id)),
            file,
        ),
{
    reveal_strlit("_info");
    reveal_strlit(".json");
    let info = info_file_name(id);
    assert(info =~= id + seq!['_', 'i', 'n', 'f', 'o'] + seq!['.', 'j', 's', 'o', 'n']);
    assert(!info.contains('/')) by {
        if info.contains('/') {
            let i = choose|i: int| 0 <= i < info.len() && info[i] == '/';
            if i < id.len() {
                assert(id[i] == '/');
            }
        }
    }
    assert(info.len() > 0 && info[0] != '/') by {
        if id.len() > 0 {
            assert(info[0] == id[0]);
        }
    }
    let rs = with_separator(root);
    let ds = with_separator(dir);
    // The path below the root.
    assert(joined_path(dir, info) == ds + info);
    lemma_with_file_name_after_separator(ds, info, file);
    let rel = ds + file;
    assert(rel.len() > 0 && rel[0] != '/') by {
        if dir.len() > 0 {
            assert(rel[0] == dir[0]);
        } else {
            assert(rel =~= file);
            assert(file[0] != '/') by {
                assert(file.contains(file[0]));
            }
        }
    }
    assert(joined_path(root, rel) == rs + rel);
    // The absolute path.
    let abs_dir = joined_path(root, dir);
    assert(abs_dir == rs + dir);
    assert(with_separator(abs_dir) == rs + ds) by {
        if dir.len() == 0 {
            assert(rs + dir =~= rs);
            assert(rs + ds =~= rs);
        } else {
            assert((rs + dir).last() == dir.last());
            if dir.last() != '/' {
                assert(rs + dir + seq!['/'] =~= rs + (dir + seq!['/']));
            }
        }
    }
    assert(joined_path(abs_dir, info) == with_separator(abs_dir) + info);
    lemma_with_file_name_after_separator(rs + ds, info, file);
    assert(rs + rel =~= rs + ds + file);
}

} // verus!
