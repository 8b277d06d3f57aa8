//! Client library for the whats-th.is file hosting and link shortening
//! service: request descriptions, response records, status handling,
//! content sniffing and the read-ahead used before an upload.

pub mod api;
pub mod records;
pub mod sniff;
pub mod stream;
pub mod text;

pub use api::{
    check_status, delete_confirmation, delete_outcome, list_outcome, upload_form, UploadForm, delete_request, display_url, list_files_request,
    list_header, response_outcome, shorten_outcome, shorten_request, status_error,
    upload_request, ApiError, Method, Request, API_BASE, STATUS_OK, STATUS_UNAUTHORIZED,
    USER_AGENT,
};
pub use records::{
    DeleteResponse, Entry, EntryError, File, FileListData, FileListResponse, UploadResponse,
    FILE_KIND, REDIRECT_KIND, TOMBSTONE_KIND,
};
pub use sniff::{content_kind, sniff, FALLBACK_MIME, FALLBACK_NAME};
pub use stream::{fill_step, read_up_to, FillStep, PeekedReader, ReadError, SNIFF_LEN};
