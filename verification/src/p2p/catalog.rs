//! The `/rau/catalog/1` and `/rau/file/1` protocols: request bounds, the
//! responses a provider sends, the checks a downloader makes, and the
//! length-prefixed framing of the file header.
use vstd::prelude::*;
use vstd::string::StringExecFns;

use crate::broadcast::profile::{byte_len, opt_view};
use crate::text::{char_count, lit, trimmed};

verus! {

/// Version of the catalog and file protocols.
pub const PROTOCOL_VERSION: u8 = 1;

/// Largest catalog request a provider reads.
pub const MAX_CATALOG_REQUEST_BYTES: usize = 16384;

/// Largest catalog response a searcher reads.
pub const MAX_CATALOG_RESPONSE_BYTES: usize = 2097152;

/// Largest file request a provider reads.
pub const MAX_FILE_REQUEST_BYTES: usize = 8192;

/// Largest file header a downloader accepts.
pub const MAX_FILE_HEADER_BYTES: usize = 16384;

/// Size of the buffer file bytes are copied through.
pub const FILE_BUFFER_BYTES: usize = 65536;

/// Largest file a downloader accepts: 100 GiB.
pub const MAX_DOWNLOAD_BYTES: u64 = 107374182400;

/// A search in a peer's shared catalog.
#[derive(Debug, Clone)]
pub struct CatalogRequest {
    pub version: u8,
    pub query: String,
    pub limit: usize,
}

/// A provider's answer to a catalog search; `R` is the search result record.
#[derive(Debug, Clone)]
pub struct CatalogResponse<R> {
    pub version: u8,
    pub provider_endpoint_id: String,
    pub query: String,
    pub results: Vec<R>,
    pub error: Option<String>,
}

/// A request for one shared file.
#[derive(Debug, Clone)]
pub struct FileRequest {
    pub version: u8,
    pub share_id: String,
    pub file_id: String,
}

/// The header sent before the bytes of a shared file.
#[derive(Debug, Clone)]
pub struct FileResponseHeader {
    pub version: u8,
    pub ok: bool,
    pub error: Option<String>,
    pub name: Option<String>,
    pub size_bytes: u64,
    pub modified_ms: Option<i64>,
}

/// A catalog search within bounds: current version, at most 512 characters of
/// query and between 1 and 200 results.
pub open spec fn catalog_request_valid(version: u8, query: Seq<char>, limit: usize) -> bool {
    version == PROTOCOL_VERSION && query.len() <= 512 && 1 <= limit <= 200
}

/// Whether a provider serves a catalog search.
pub fn valid_catalog_request(request: &CatalogRequest) -> (r: bool)
    ensures
        r == catalog_request_valid(request.version, request.query@, request.limit),
        r <==> (request.version == PROTOCOL_VERSION && request.query@.len() <= 512 && 1
            <= request.limit <= 200),
{
    request.version == PROTOCOL_VERSION && char_count(request.query.as_str()) <= 512 && 1
        <= request.limit && request.limit <= 200
}

/// A file request within bounds: current version and identifiers of 1 to 128
/// bytes.
pub open spec fn file_request_valid(version: u8, share_id: Seq<char>, file_id: Seq<char>) -> bool {
    version == PROTOCOL_VERSION && 1 <= byte_len(share_id) <= 128 && 1 <= byte_len(file_id) <= 128
}

/// Whether a provider serves a file request.
pub fn valid_file_request(request: &FileRequest) -> (r: bool)
    ensures
        r == file_request_valid(request.version, request.share_id@, request.file_id@),
        r <==> (request.version == PROTOCOL_VERSION && 1 <= byte_len(request.share_id@) <= 128 && 1
            <= byte_len(request.file_id@) <= 128),
{
    let share = request.share_id.as_str().len();
    let file = request.file_id.as_str().len();
    request.version == PROTOCOL_VERSION && 1 <= share && share <= 128 && 1 <= file && file <= 128
}

/// The catalog answer carrying only an error.
pub fn catalog_error<R>(error: String) -> (r: CatalogResponse<R>)
    ensures
        r.version == PROTOCOL_VERSION,
        r.provider_endpoint_id@.len() == 0,
        r.query@.len() == 0,
        r.results@.len() == 0,
        opt_view(r.error) == Some(error@),
{
    CatalogResponse {
        version: PROTOCOL_VERSION,
        provider_endpoint_id: String::new(),
        query: String::new(),
        results: Vec::new(),
        error: Some(error),
    }
}

/// An answer without a provider identity is sent with the provider's own.
pub fn with_provider<R>(response: CatalogResponse<R>, endpoint_id: &str) -> (r: CatalogResponse<R>)
    ensures
        r.provider_endpoint_id@ == (if response.provider_endpoint_id@.len() == 0 {
            endpoint_id@
        } else {
            response.provider_endpoint_id@
        }),
        r.version == response.version,
        r.query@ == response.query@,
        r.results@ == response.results@,
        opt_view(r.error) == opt_view(response.error),
{
    let mut response = response;
    if response.provider_endpoint_id.as_str().is_empty() {
        response.provider_endpoint_id = lit(endpoint_id);
    }
    response
}

/// The file header carrying only an error.
pub fn file_error(error: String) -> (r: FileResponseHeader)
    ensures
        r.version == PROTOCOL_VERSION,
        !r.ok,
        opt_view(r.error) == Some(error@),
        r.name is None,
        r.size_bytes == 0,
        r.modified_ms is None,
{
    FileResponseHeader {
        version: PROTOCOL_VERSION,
        ok: false,
        error: Some(error),
        name: None,
        size_bytes: 0,
        modified_ms: None,
    }
}

/// The file header announcing a file about to be streamed.
pub fn file_ok_header(name: String, size_bytes: u64, modified_ms: Option<i64>) -> (r:
    FileResponseHeader)
    ensures
        r.version == PROTOCOL_VERSION,
        r.ok,
        r.error is None,
        opt_view(r.name) == Some(name@),
        r.size_bytes == size_bytes,
        r.modified_ms == modified_ms,
{
    FileResponseHeader {
        version: PROTOCOL_VERSION,
        ok: true,
        error: None,
        name: Some(name),
        size_bytes,
        modified_ms,
    }
}

/// 100 by default, clamped to 1..=200.
pub open spec fn catalog_limit_spec(limit: Option<usize>) -> usize {
    let l = match limit {
        Some(l) => l,
        None => 100,
    };
    if l < 1 {
        1
    } else if l > 200 {
        200
    } else {
        l
    }
}

/// The number of results a searcher asks for: 100 by default, within 1 to 200.
pub fn catalog_limit(limit: Option<usize>) -> (r: usize)
    ensures
        r == catalog_limit_spec(limit),
        1 <= r <= 200,
{
    let l = match limit {
        Some(l) => l,
        None => 100,
    };
    if l < 1 {
        1
    } else if l > 200 {
        200
    } else {
        l
    }
}

/// The catalog search a searcher sends: the trimmed query and the bounded limit.
pub fn catalog_request(query: &str, limit: Option<usize>) -> (r: CatalogRequest)
    ensures
        r.version == PROTOCOL_VERSION,
        r.query@ == crate::text::trim_spec(query@),
        r.limit == catalog_limit_spec(limit),
        1 <= r.limit <= 200,
{
    CatalogRequest { version: PROTOCOL_VERSION, query: trimmed(query), limit: catalog_limit(limit) }
}

/// A searcher's own request is within bounds whenever its query is.
pub proof fn lemma_client_request_in_bounds(query: Seq<char>, limit: usize)
    requires
        query.len() <= 512,
        1 <= limit <= 200,
    ensures
        catalog_request_valid(PROTOCOL_VERSION, query, limit),
{
}

/// Why a catalog answer is refused, if it is: it must carry the current version
/// and the authenticated peer's identity, for itself and every result, and then
/// any error it carries is the error.
pub open spec fn catalog_response_refusal(
    version: u8,
    provider: Seq<char>,
    result_providers: Seq<Seq<char>>,
    error: Option<Seq<char>>,
    authenticated: Seq<char>,
) -> Option<Seq<char>> {
    if version != PROTOCOL_VERSION || provider != authenticated || exists|i: int|
        0 <= i < result_providers.len() && #[trigger] result_providers[i] != authenticated {
        Some("El catalogo no coincide con la identidad autenticada del peer."@)
    } else {
        error
    }
}

/// A catalog answer is taken exactly when it has the current version, comes
/// from the authenticated peer, lists only that peer's files, and carries no
/// error.
pub proof fn lemma_catalog_answer_accepted(
    version: u8,
    provider: Seq<char>,
    result_providers: Seq<Seq<char>>,
    error: Option<Seq<char>>,
    authenticated: Seq<char>,
)
    ensures
        (catalog_response_refusal(version, provider, result_providers, error, authenticated)
            is None) <==> (version == PROTOCOL_VERSION && provider == authenticated && (forall|i: int|
            0 <= i < result_providers.len() ==> #[trigger] result_providers[i] == authenticated)
            && error is None),
{
}

/// Checks a catalog answer against the authenticated peer; `result_providers`
/// are the provider identities of its results.
pub fn check_catalog_response(
    version: u8,
    provider: &str,
    result_providers: &Vec<String>,
    error: Option<String>,
    authenticated: &str,
) -> (r: Result<(), String>)
    ensures
        r is Ok <==> catalog_response_refusal(
            version,
            provider@,
            crate::text::views(result_providers@),
            opt_view(error),
            authenticated@,
        ) is None,
        r matches Err(e) ==> catalog_response_refusal(
            version,
            provider@,
            crate::text::views(result_providers@),
            opt_view(error),
            authenticated@,
        ) == Some(e@),
        r is Ok <==> (version == PROTOCOL_VERSION && provider@ == authenticated@ && (forall|i: int|
            0 <= i < result_providers@.len() ==> #[trigger] result_providers@[i]@ == authenticated@)
            && error is None),
{
    proof {
        lemma_catalog_answer_accepted(
            version,
            provider@,
            crate::text::views(result_providers@),
            opt_view(error),
            authenticated@,
        );
        let pv = crate::text::views(result_providers@);
        assert(pv.len() == result_providers@.len());
        assert(forall|i: int|
            0 <= i < result_providers@.len() ==> #[trigger] pv[i] == result_providers@[i]@);
        assert((forall|i: int| 0 <= i < pv.len() ==> #[trigger] pv[i] == authenticated@) <==> (
        forall|i: int|
            0 <= i < result_providers@.len() ==> #[trigger] result_providers@[i]@ == authenticated@)) by {
            if forall|i: int| 0 <= i < pv.len() ==> #[trigger] pv[i] == authenticated@ {
                assert forall|i: int| 0 <= i < result_providers@.len() implies #[trigger] result_providers@[i]@
                    == authenticated@ by {
                    assert(pv[i] == result_providers@[i]@);
                }
            }
        }
    }
    let mut mismatch = version != PROTOCOL_VERSION || lit(provider) != lit(authenticated);
    let mut i: usize = 0;
    while i < result_providers.len()
        invariant
            i <= result_providers.len(),
            mismatch == (version != PROTOCOL_VERSION || provider@ != authenticated@ || exists|
                j: int,
            |
                0 <= j < i && #[trigger] crate::text::views(result_providers@)[j]
                    != authenticated@),
        decreases result_providers.len() - i,
    {
        let ghost vs = crate::text::views(result_providers@);
        assert(vs[i as int] == result_providers@[i as int]@);
        if result_providers[i] != lit(authenticated) {
            mismatch = true;
            assert(vs[i as int] != authenticated@);
        }
        i = i + 1;
    }
    if mismatch {
        return Err(lit("El catalogo no coincide con la identidad autenticada del peer."));
    }
    match error {
        Some(e) => Err(e),
        None => Ok(()),
    }
}

/// Remote identifiers longer than 128 bytes are refused before connecting.
pub fn check_remote_file_ids(share_id: &str, file_id: &str) -> (r: Result<(), String>)
    ensures
        r is Err <==> (byte_len(share_id@) > 128 || byte_len(file_id@) > 128),
        r matches Err(e) ==> e@ == "El identificador del archivo remoto no es valido."@,
{
    if share_id.len() > 128 || file_id.len() > 128 {
        return Err(lit("El identificador del archivo remoto no es valido."));
    }
    Ok(())
}

/// The file name of a download destination: the last component of the trimmed
/// path, which must not be empty.
pub fn download_file_name(destination_path: &str) -> (r: Result<String, String>)
    ensures
        ({
            let name = crate::turn::path_file_name(crate::text::trim_spec(destination_path@));
            &&& r matches Ok(n) ==> name == Some(n@) && n@.len() > 0
            &&& r is Err <==> (name is None || name.unwrap().len() == 0)
            &&& r matches Err(e) ==> e@ == "Selecciona un destino de archivo valido."@
        }),
{
    let destination = trimmed(destination_path);
    match crate::turn::file_name_of(destination.as_str()) {
        Some(name) => {
            if name.as_str().is_empty() {
                Err(lit("Selecciona un destino de archivo valido."))
            } else {
                Ok(name)
            }
        },
        None => Err(lit("Selecciona un destino de archivo valido.")),
    }
}

/// The hidden sibling a download is written to: `.{name}.rau-part-{transfer}`.
pub fn temporary_file_name(file_name: &str, transfer_id: &str) -> (r: String)
    ensures
        r@ == "."@ + file_name@ + ".rau-part-"@ + transfer_id@,
{
    lit(".").concat(file_name).concat(".rau-part-").concat(transfer_id)
}

/// The hidden sibling an existing destination is kept in while it is replaced:
/// `.{name}.rau-backup-{transfer}`.
pub fn backup_file_name(file_name: &str, transfer_id: &str) -> (r: String)
    ensures
        r@ == "."@ + file_name@ + ".rau-backup-"@ + transfer_id@,
{
    lit(".").concat(file_name).concat(".rau-backup-").concat(transfer_id)
}

/// Why a downloader refuses a file header, if it does.
pub open spec fn download_header_refusal(
    ok: bool,
    error: Option<Seq<char>>,
    version: u8,
    size_bytes: u64,
) -> Option<Seq<char>> {
    if !ok {
        Some(
            match error {
                Some(e) => e,
                None => "El peer rechazo la descarga."@,
            },
        )
    } else if version != PROTOCOL_VERSION {
        Some("La version del protocolo de descarga no es compatible."@)
    } else if size_bytes > MAX_DOWNLOAD_BYTES {
        Some("El archivo remoto excede el limite de descarga de 100 GB."@)
    } else {
        None
    }
}

/// Checks the header a provider sent before the file bytes.
pub fn check_download_header(header: &FileResponseHeader) -> (r: Result<(), String>)
    ensures
        r is Ok <==> download_header_refusal(
            header.ok,
            opt_view(header.error),
            header.version,
            header.size_bytes,
        ) is None,
        r matches Err(e) ==> download_header_refusal(
            header.ok,
            opt_view(header.error),
            header.version,
            header.size_bytes,
        ) == Some(e@),
        r is Ok <==> (header.ok && header.version == PROTOCOL_VERSION && header.size_bytes
            <= MAX_DOWNLOAD_BYTES),
        !header.ok && header.error is Some ==> r == Err::<(), String>(header.error.unwrap()),
{
    if !header.ok {
        return Err(
            match &header.error {
                Some(e) => e.clone(),
                None => lit("El peer rechazo la descarga."),
            },
        );
    }
    if header.version != PROTOCOL_VERSION {
        return Err(lit("La version del protocolo de descarga no es compatible."));
    }
    if header.size_bytes > MAX_DOWNLOAD_BYTES {
        return Err(lit("El archivo remoto excede el limite de descarga de 100 GB."));
    }
    Ok(())
}

/// How many bytes to read next: what is still missing, at most one buffer.
pub fn next_read_capacity(size_bytes: u64, received: u64) -> (r: usize)
    ensures
        r as int == (if size_bytes <= received {
            0
        } else if size_bytes - received < FILE_BUFFER_BYTES {
            size_bytes - received
        } else {
            FILE_BUFFER_BYTES as int
        }),
{
    let remaining = if size_bytes <= received {
        0
    } else {
        size_bytes - received
    };
    if remaining < FILE_BUFFER_BYTES as u64 {
        remaining as usize
    } else {
        FILE_BUFFER_BYTES
    }
}

/// While bytes are missing, the next read asks for some and never for more than
/// are missing, so a download neither stalls nor overruns the announced size.
pub proof fn lemma_read_capacity_progress(size_bytes: u64, received: u64, capacity: int)
    requires
        received < size_bytes,
        capacity == (if size_bytes <= received {
            0
        } else if size_bytes - received < FILE_BUFFER_BYTES {
            size_bytes - received
        } else {
            FILE_BUFFER_BYTES as int
        }),
    ensures
        0 < capacity <= FILE_BUFFER_BYTES,
        received + capacity <= size_bytes,
{
}

/// The four big-endian bytes of a 32-bit length.
pub open spec fn be_bytes(n: u32) -> Seq<u8> {
    seq![(n / 16777216) as u8, ((n / 65536) % 256) as u8, ((n / 256) % 256) as u8, (n % 256) as u8]
}

/// The value of four big-endian bytes.
pub open spec fn be_value(b0: u8, b1: u8, b2: u8, b3: u8) -> int {
    b0 * 16777216 + b1 * 65536 + b2 * 256 + b3
}

/// Frames an encoded file header: its length as four big-endian bytes, then the
/// header. `None` when the header does not fit a 32-bit length.
pub fn frame_file_header(encoded: &Vec<u8>) -> (r: Option<Vec<u8>>)
    ensures
        encoded.len() > u32::MAX ==> r is None,
        encoded.len() <= u32::MAX ==> (r matches Some(f) && f@ == be_bytes(encoded.len() as u32)
            + encoded@),
{
    if encoded.len() > u32::MAX as usize {
        return None;
    }
    let n = encoded.len() as u32;
    let mut framed: Vec<u8> = Vec::new();
    framed.push((n / 16777216) as u8);
    framed.push(((n / 65536) % 256) as u8);
    framed.push(((n / 256) % 256) as u8);
    framed.push((n % 256) as u8);
    let mut i: usize = 0;
    while i < encoded.len()
        invariant
            i <= encoded.len(),
            framed@ == be_bytes(n) + encoded@.take(i as int),
        decreases encoded.len() - i,
    {
        framed.push(encoded[i]);
        i = i + 1;
        assert(framed@ =~= be_bytes(n) + encoded@.take(i as int));
    }
    assert(encoded@.take(encoded.len() as int) =~= encoded@);
    Some(framed)
}

/// Reads the length prefix of a file header: it must be 1 to 16 KiB.
pub fn file_header_length(prefix: [u8; 4]) -> (r: Result<usize, String>)
    ensures
        ({
            let n = be_value(prefix[0], prefix[1], prefix[2], prefix[3]);
            &&& r matches Ok(len) ==> len == n && 1 <= n <= MAX_FILE_HEADER_BYTES
            &&& r is Err <==> (n == 0 || n > MAX_FILE_HEADER_BYTES)
            &&& r matches Err(e) ==> e@ == "La cabecera de descarga excede el limite permitido."@
        }),
{
    let n: u64 = prefix[0] as u64 * 16777216 + prefix[1] as u64 * 65536 + prefix[2] as u64 * 256
        + prefix[3] as u64;
    if n == 0 || n > MAX_FILE_HEADER_BYTES as u64 {
        return Err(lit("La cabecera de descarga excede el limite permitido."));
    }
    Ok(n as usize)
}

/// Reading the prefix of a framed header gives back the header's length.
pub proof fn lemma_frame_roundtrip(n: u32)
    ensures
        be_value(be_bytes(n)[0], be_bytes(n)[1], be_bytes(n)[2], be_bytes(n)[3]) == n,
{
}

} // verus!
