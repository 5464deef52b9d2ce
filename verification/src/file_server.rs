//! The registry of the media server: which files it serves under which
//! identifier, how a data URL becomes a file, and what a request asks for.
//!
//! Listening, reading and writing are the caller's. The server answers a
//! request for `/file/<id>` from the registry, else from a file in its
//! storage directory whose name begins with the identifier.

use crate::primitives::{base64_bytes, base64_decode, decode_error_text};
use crate::table::Table;
use crate::text::{
    decimal, decimal_text, find_after_last, find_from, first_position, has_prefix, last_segment,
    lowercase_text, same_text, starts_with, text_of, to_chars, trim_char, trimmed_of,
};
use vstd::prelude::*;

verus! {

/// The port that the server asks for first.
pub const PREFERRED_PORT: u16 = 18080;

/// The value of `Access-Control-Allow-Origin` on every answer.
pub const ALLOW_ORIGIN: &'static str = "*";

/// The value of `Access-Control-Allow-Methods` on the answer to `OPTIONS`.
pub const ALLOW_METHODS: &'static str = "GET, OPTIONS";

/// The body of the answer to a path that names no file.
pub const BANNER: &'static str = "Pingo File Server";

/// The body of the answer for a file that the server does not have.
pub const NOT_FOUND: &'static str = "Not found";

/// The MIME type of a data URL that names none.
pub const DEFAULT_MIME: &'static str = "application/octet-stream";

/// A file that the server serves.
#[derive(Debug)]
pub struct StoredFile {
    pub id: String,
    pub path: String,
    pub mime_type: String,
    pub file_name: String,
}

impl Clone for StoredFile {
    fn clone(&self) -> (copy: Self)
        ensures
            copy == *self,
    {
        StoredFile {
            id: self.id.clone(),
            path: self.path.clone(),
            mime_type: self.mime_type.clone(),
            file_name: self.file_name.clone(),
        }
    }
}

/// Why the server refused.
#[derive(Debug, Clone, PartialEq, Eq)]
pub enum FileServerError {
    /// The data URL has no comma.
    InvalidDataUrl,
    /// The payload of the data URL is not well-formed Base64; `detail` is
    /// what the decoder says of it.
    InvalidEncoding { detail: String },
    /// The server came to listen on port 0.
    PortZero,
}

impl FileServerError {
    /// The message that goes with the error.
    pub fn message(&self) -> (text: String)
        ensures
            text@ == match *self {
                FileServerError::InvalidDataUrl => "Invalid data URL"@,
                FileServerError::InvalidEncoding { detail } => "Base64 decode error: "@ + detail@,
                FileServerError::PortZero => "Server bound to port 0 - this should not happen"@,
            },
    {
        match self {
            FileServerError::InvalidDataUrl => String::from_str("Invalid data URL"),
            FileServerError::InvalidEncoding { detail } => {
                let mut text = String::from_str("Base64 decode error: ");
                text.append(detail.as_str());
                text
            },
            FileServerError::PortZero => String::from_str(
                "Server bound to port 0 - this should not happen",
            ),
        }
    }
}

/// What a data URL holds, ready to be written: the bytes, their MIME type,
/// and the name of the file to write them to, within the storage directory.
#[derive(Debug)]
pub struct DataUrlBlob {
    pub stored_name: String,
    pub mime_type: String,
    pub bytes: Vec<u8>,
}

/// What a request asks for.
#[derive(Debug)]
pub enum Route {
    /// An `OPTIONS` request: answer 200 with the CORS headers.
    Preflight,
    /// A request for the file of this identifier.
    File { file_id: String },
    /// Anything else: answer with the banner.
    Banner,
}

/// The file extension that goes with a MIME type.
pub open spec fn extension_of_mime(mime: Seq<char>) -> Seq<char> {
    if mime == "image/png"@ {
        "png"@
    } else if mime == "image/jpeg"@ || mime == "image/jpg"@ {
        "jpg"@
    } else if mime == "image/gif"@ {
        "gif"@
    } else if mime == "image/svg+xml"@ {
        "svg"@
    } else if mime == "image/webp"@ {
        "webp"@
    } else if mime == "video/mp4"@ {
        "mp4"@
    } else if mime == "video/webm"@ {
        "webm"@
    } else if mime == "application/pdf"@ {
        "pdf"@
    } else if mime == "application/zip"@ {
        "zip"@
    } else {
        "bin"@
    }
}

/// The MIME type that goes with a lower-case file extension.
pub open spec fn mime_of_served_extension(lowered: Seq<char>) -> Seq<char> {
    if lowered == "png"@ {
        "image/png"@
    } else if lowered == "jpg"@ || lowered == "jpeg"@ {
        "image/jpeg"@
    } else if lowered == "gif"@ {
        "image/gif"@
    } else if lowered == "svg"@ {
        "image/svg+xml"@
    } else if lowered == "webp"@ {
        "image/webp"@
    } else if lowered == "mp4"@ {
        "video/mp4"@
    } else if lowered == "webm"@ {
        "video/webm"@
    } else if lowered == "pdf"@ {
        "application/pdf"@
    } else if lowered == "zip"@ {
        "application/zip"@
    } else {
        "application/octet-stream"@
    }
}

/// The MIME type that a file name suggests: by what follows its last dot,
/// whatever its case; by the whole name where it has no dot.
pub open spec fn guessed_mime(file_name: Seq<char>) -> Seq<char> {
    mime_of_served_extension(lowercase_text(last_segment(file_name, '.')))
}

/// The MIME type that a data URL names: what stands between `data:` and the
/// first semicolon of its header; the default where the header does not
/// begin with `data:`.
pub open spec fn mime_of_header(header: Seq<char>) -> Seq<char> {
    if has_prefix(header, "data:"@) {
        let rest = header.skip("data:"@.len() as int);
        rest.subrange(0, first_position(rest, ';'))
    } else {
        DEFAULT_MIME@
    }
}

/// The name under which the bytes of `file_id` are stored.
pub open spec fn stored_name_of(file_id: Seq<char>, mime: Seq<char>) -> Seq<char> {
    file_id + seq!['.'] + extension_of_mime(mime)
}

/// The identifier that a request path asks for, where it asks for a file:
/// what follows `/file/`, without slashes around it.
pub open spec fn requested_file(url: Seq<char>) -> Option<Seq<char>> {
    if has_prefix(url, "/file/"@) {
        Some(trimmed_of(url.skip("/file/"@.len() as int), '/'))
    } else {
        None
    }
}

/// The URL under which the server offers a file.
pub open spec fn file_url(port: u16, file_id: Seq<char>) -> Seq<char> {
    "http://0.0.0.0:"@ + decimal_text(port as nat) + "/file/"@ + file_id
}

/// The file extension that goes with a MIME type.
pub fn mime_to_ext(mime: &str) -> (ext: &'static str)
    ensures
        ext@ == extension_of_mime(mime@),
{
    if same_text(mime, "image/png") {
        "png"
    } else if same_text(mime, "image/jpeg") || same_text(mime, "image/jpg") {
        "jpg"
    } else if same_text(mime, "image/gif") {
        "gif"
    } else if same_text(mime, "image/svg+xml") {
        "svg"
    } else if same_text(mime, "image/webp") {
        "webp"
    } else if same_text(mime, "video/mp4") {
        "mp4"
    } else if same_text(mime, "video/webm") {
        "webm"
    } else if same_text(mime, "application/pdf") {
        "pdf"
    } else if same_text(mime, "application/zip") {
        "zip"
    } else {
        "bin"
    }
}

/// The MIME type that goes with a lower-case file extension.
pub fn mime_of_extension(lowered: &str) -> (mime: &'static str)
    ensures
        mime@ == mime_of_served_extension(lowered@),
{
    if same_text(lowered, "png") {
        "image/png"
    } else if same_text(lowered, "jpg") || same_text(lowered, "jpeg") {
        "image/jpeg"
    } else if same_text(lowered, "gif") {
        "image/gif"
    } else if same_text(lowered, "svg") {
        "image/svg+xml"
    } else if same_text(lowered, "webp") {
        "image/webp"
    } else if same_text(lowered, "mp4") {
        "video/mp4"
    } else if same_text(lowered, "webm") {
        "video/webm"
    } else if same_text(lowered, "pdf") {
        "application/pdf"
    } else if same_text(lowered, "zip") {
        "application/zip"
    } else {
        "application/octet-stream"
    }
}

/// The MIME type that a file name suggests.
pub fn guess_mime(filename: &str) -> (mime: String)
    ensures
        mime@ == guessed_mime(filename@),
{
    let chars = to_chars(filename);
    let from = find_after_last(&chars, '.');
    let ext = text_of(&chars, from, chars.len());
    let lowered = ext.as_str().to_lowercase();
    String::from_str(mime_of_extension(lowered.as_str()))
}

/// Whether a file in the storage directory belongs to an identifier: its
/// name begins with it.
pub fn matches_id(file_name: &str, file_id: &str) -> (belongs: bool)
    ensures
        belongs == has_prefix(file_name@, file_id@),
{
    let name = to_chars(file_name);
    let id = to_chars(file_id);
    starts_with(&name, &id)
}

/// What a request asks for, by whether its method is `OPTIONS` and by its
/// path.
pub fn route(is_options: bool, url: &str) -> (asked: Route)
    ensures
        match asked {
            Route::Preflight => is_options,
            Route::File { file_id } => !is_options && requested_file(url@) == Some(file_id@),
            Route::Banner => !is_options && requested_file(url@) is None,
        },
{
    if is_options {
        return Route::Preflight;
    }
    let chars = to_chars(url);
    let prefix = to_chars("/file/");
    if !starts_with(&chars, &prefix) {
        return Route::Banner;
    }
    let mut rest: Vec<char> = Vec::new();
    let mut i: usize = prefix.len();
    while i < chars.len()
        invariant
            prefix.len() <= i <= chars.len(),
            rest@ == chars@.subrange(prefix.len() as int, i as int),
        decreases chars.len() - i,
    {
        rest.push(chars[i]);
        i += 1;
        assert(rest@ =~= chars@.subrange(prefix.len() as int, i as int));
    }
    assert(rest@ =~= chars@.skip(prefix.len() as int));
    Route::File { file_id: trim_char(&rest, '/') }
}

/// The files of the media server of one device.
pub struct FileServer {
    files: Table<StoredFile>,
    port: u16,
    storage_dir: String,
}

impl FileServer {
    /// No file occurs twice and each is stored under its own identifier.
    pub closed spec fn wf(&self) -> bool {
        &&& self.files.wf()
        &&& forall|i: int|
            0 <= i < self.files.values.len() ==> (#[trigger] self.files.values[i]).id@
                == self.files.keys[i]@
    }

    /// The files by identifier.
    pub closed spec fn files(&self) -> Map<Seq<char>, StoredFile> {
        self.files@
    }

    /// The port that the server listens on; 0 before it has started.
    pub closed spec fn port(&self) -> u16 {
        self.port
    }

    /// The directory that the server keeps its own files in.
    pub closed spec fn storage(&self) -> Seq<char> {
        self.storage_dir@
    }

    /// A server that keeps its files in `storage_dir`, has none yet and has
    /// not started.
    pub fn new(storage_dir: String) -> (server: Self)
        ensures
            server.wf(),
            server.files() == Map::<Seq<char>, StoredFile>::empty(),
            server.port() == 0,
            server.storage() == storage_dir@,
    {
        FileServer { files: Table::new(), port: 0, storage_dir }
    }

    fn index(&mut self, stored: StoredFile)
        requires
            old(self).wf(),
        ensures
            final(self).wf(),
            final(self).port() == old(self).port(),
            final(self).storage() == old(self).storage(),
            final(self).files() == old(self).files().insert(stored.id@, stored),
    {
        let ghost before = *self;
        let key = stored.id.clone();
        self.files.insert(key, stored);
        proof {
            if before.files@.contains_key(stored.id@) {
                let p = before.files.index_of(stored.id@);
                assert forall|i: int| 0 <= i < self.files.values.len() implies (
                #[trigger] self.files.values[i]).id@ == self.files.keys[i]@ by {
                    if i != p {
                        assert(before.files.values[i].id@ == before.files.keys[i]@);
                    }
                }
            } else {
                assert forall|i: int| 0 <= i < self.files.values.len() implies (
                #[trigger] self.files.values[i]).id@ == self.files.keys[i]@ by {
                    if i < before.files.values.len() {
                        assert(before.files.values[i].id@ == before.files.keys[i]@);
                    }
                }
            }
        }
    }

    /// Takes a data URL `data:<mime>;base64,<payload>` apart: the bytes, their
    /// MIME type and the name under which to store them. A URL without a
    /// comma and a payload that is not Base64 are refused.
    pub fn store_data_url(&self, file_id: &str, data_url: &str) -> (blob: Result<
        DataUrlBlob,
        FileServerError,
    >)
        ensures
            ({
                let comma = first_position(data_url@, ',');
                if comma >= data_url@.len() {
                    blob matches Err(e) && e == FileServerError::InvalidDataUrl
                } else {
                    let mime = mime_of_header(data_url@.subrange(0, comma));
                    match base64_bytes(data_url@.skip(comma + 1)) {
                        None => blob matches Err(FileServerError::InvalidEncoding { .. }),
                        Some(bytes) => {
                            &&& blob matches Ok(b)
                            &&& b.bytes@ == bytes
                            &&& b.mime_type@ == mime
                            &&& b.stored_name@ == stored_name_of(file_id@, mime)
                        },
                    }
                }
            }),
    {
        let (mime_type, payload) = match Self::parse_data_url(data_url) {
            Some(parts) => parts,
            None => {
                return Err(FileServerError::InvalidDataUrl);
            },
        };
        let bytes = match base64_decode(payload.as_str()) {
            Ok(bytes) => bytes,
            Err(e) => {
                return Err(FileServerError::InvalidEncoding { detail: decode_error_text(&e) });
            },
        };
        let stored_name = Self::stored_name(file_id, mime_type.as_str());
        Ok(DataUrlBlob { stored_name, mime_type, bytes })
    }

    /// Cuts a data URL at its first comma into the MIME type that its header
    /// names and the payload; a URL without a comma gives nothing.
    pub fn parse_data_url(data_url: &str) -> (parts: Option<(String, String)>)
        ensures
            ({
                let comma = first_position(data_url@, ',');
                match parts {
                    Some(cut) => comma < data_url@.len() && cut.0@ == mime_of_header(
                        data_url@.subrange(0, comma),
                    ) && cut.1@ == data_url@.skip(comma + 1),
                    None => comma >= data_url@.len(),
                }
            }),
    {
        let chars = to_chars(data_url);
        proof {
            assert(chars@.skip(0) =~= chars@);
        }
        let comma = find_from(&chars, ',', 0);
        if comma >= chars.len() {
            return None;
        }
        let mime_type = Self::header_mime(&chars, comma);
        let payload = text_of(&chars, comma + 1, chars.len());
        assert(payload@ =~= data_url@.skip(comma + 1));
        Some((mime_type, payload))
    }

    fn header_mime(chars: &Vec<char>, comma: usize) -> (mime: String)
        requires
            comma <= chars.len(),
        ensures
            mime@ == mime_of_header(chars@.subrange(0, comma as int)),
    {
        let ghost header = chars@.subrange(0, comma as int);
        let prefix = to_chars("data:");
        let mut head: Vec<char> = Vec::new();
        let mut i: usize = 0;
        while i < comma
            invariant
                i <= comma <= chars.len(),
                head@ == chars@.subrange(0, i as int),
            decreases comma - i,
        {
            head.push(chars[i]);
            i += 1;
            assert(head@ =~= chars@.subrange(0, i as int));
        }
        if !starts_with(&head, &prefix) {
            return String::from_str(DEFAULT_MIME);
        }
        let stop = find_from(&head, ';', prefix.len());
        let mime = text_of(&head, prefix.len(), stop);
        proof {
            let rest = header.skip(prefix.len() as int);
            assert(mime@ =~= rest.subrange(0, first_position(rest, ';')));
        }
        mime
    }

    /// The name under which the bytes of `file_id` are stored: the
    /// identifier, a dot, and the extension that goes with the MIME type.
    pub fn stored_name(file_id: &str, mime_type: &str) -> (name: String)
        ensures
            name@ == stored_name_of(file_id@, mime_type@),
    {
        let mut name = String::from_str(file_id);
        name.push('.');
        name.append(mime_to_ext(mime_type));
        name
    }

    /// Records that bytes of the given MIME type have been written to
    /// `path` and serves them from now on under `file_id`, in place of
    /// whatever was served under it.
    pub fn store_bytes(&mut self, file_id: &str, path: &str, file_name: &str, mime_type: &str) -> (id:
        String)
        requires
            old(self).wf(),
        ensures
            final(self).wf(),
            final(self).port() == old(self).port(),
            final(self).storage() == old(self).storage(),
            id@ == file_id@,
            final(self).files().dom() == old(self).files().dom().insert(file_id@),
            forall|other: Seq<char>|
                other != file_id@ && old(self).files().contains_key(other) ==> final(self).files()[other] == old(self).files()[other],
            final(self).files()[file_id@].id@ == file_id@,
            final(self).files()[file_id@].path@ == path@,
            final(self).files()[file_id@].mime_type@ == mime_type@,
            final(self).files()[file_id@].file_name@ == file_name@,
    {
        let stored = StoredFile {
            id: String::from_str(file_id),
            path: String::from_str(path),
            mime_type: String::from_str(mime_type),
            file_name: String::from_str(file_name),
        };
        self.index(stored);
        String::from_str(file_id)
    }

    /// The URL under which the server offers a file: none before the server
    /// has started, none for a file that it does not know.
    pub fn get_file_url(&self, file_id: &str) -> (url: Option<String>)
        requires
            self.wf(),
        ensures
            match url {
                Some(u) => self.port() != 0 && self.files().contains_key(file_id@) && u@
                    == file_url(self.port(), file_id@),
                None => self.port() == 0 || !self.files().contains_key(file_id@),
            },
    {
        if self.port == 0 {
            return None;
        }
        if self.files.contains_key(file_id) {
            let mut url = String::from_str("http://0.0.0.0:");
            url.append(decimal(self.port as u64).as_str());
            url.append("/file/");
            url.append(file_id);
            Some(url)
        } else {
            None
        }
    }

    /// The port that the server listens on; 0 before it has started.
    pub fn get_port(&self) -> (port: u16)
        ensures
            port == self.port(),
    {
        self.port
    }

    /// The directory that the server keeps its own files in.
    pub fn get_storage_dir(&self) -> (dir: String)
        ensures
            dir@ == self.storage(),
    {
        self.storage_dir.clone()
    }

    /// Serves a file that lies at `path` under `file_id` from now on, in
    /// place of whatever was served under it, with the MIME type that its
    /// name suggests.
    pub fn register_file(&mut self, file_id: &str, path: &str, file_name: &str)
        requires
            old(self).wf(),
        ensures
            final(self).wf(),
            final(self).port() == old(self).port(),
            final(self).storage() == old(self).storage(),
            final(self).files().dom() == old(self).files().dom().insert(file_id@),
            forall|other: Seq<char>|
                other != file_id@ && old(self).files().contains_key(other) ==> final(self).files()[other] == old(self).files()[other],
            final(self).files()[file_id@].id@ == file_id@,
            final(self).files()[file_id@].path@ == path@,
            final(self).files()[file_id@].mime_type@ == guessed_mime(file_name@),
            final(self).files()[file_id@].file_name@ == file_name@,
    {
        let stored = StoredFile {
            id: String::from_str(file_id),
            path: String::from_str(path),
            mime_type: guess_mime(file_name),
            file_name: String::from_str(file_name),
        };
        self.index(stored);
    }

    /// Records the port that the caller has bound the listener to. Port 0
    /// is refused and leaves the server as it was.
    pub fn start(&mut self, bound_port: u16) -> (port: Result<u16, FileServerError>)
        requires
            old(self).wf(),
        ensures
            final(self).wf(),
            final(self).files() == old(self).files(),
            final(self).storage() == old(self).storage(),
            port == if bound_port == 0 {
                Err::<u16, FileServerError>(FileServerError::PortZero)
            } else {
                Ok::<u16, FileServerError>(bound_port)
            },
            final(self).port() == if bound_port == 0 {
                old(self).port()
            } else {
                bound_port
            },
    {
        if bound_port == 0 {
            return Err(FileServerError::PortZero);
        }
        self.port = bound_port;
        Ok(bound_port)
    }

    /// The file that the registry holds under an identifier, as a copy.
    pub fn lookup(&self, file_id: &str) -> (stored: Option<StoredFile>)
        requires
            self.wf(),
        ensures
            match stored {
                Some(file) => self.files().contains_key(file_id@) && file
                    == self.files()[file_id@],
                None => !self.files().contains_key(file_id@),
            },
    {
        match self.files.get(file_id) {
            Some(file) => Some(file.clone()),
            None => None,
        }
    }
}

} // verus!
