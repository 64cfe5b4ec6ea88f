use crate::digest;
use crate::digest::{digest_name, ContentHasher};
use crate::error;
use crate::error::{error_response, sdk_error_response, ErrorReply, Message, SdkError};
use crate::headers;
use crate::headers::{required_u64_header, HeaderMap, HeaderText};
use crate::json::Json;
use crate::reply;
use crate::reply::{internal_response, Body, Reply};
use crate::text::same;
use vstd::prelude::*;

verus! {

/// What was frozen for the transfer of an artifact.
pub struct ArtifactChannel {
    pub size_bytes: Option<u64>,
    pub expected_digest: Option<String>,
}

/// What an upload says of itself.
pub struct UploadDeclaration {
    pub offset: u64,
    pub total: u64,
    pub digest: String,
}

/// Whether a size and a digest fit what was frozen.
pub open spec fn fits_channel(channel: ArtifactChannel, size: u64, digest: Seq<char>) -> bool {
    &&& channel.size_bytes matches Some(expected) ==> expected == size
    &&& channel.expected_digest matches Some(expected) ==> expected@ == digest
}

fn fits(channel: &ArtifactChannel, size: u64, digest: &str) -> (r: bool)
    ensures
        r == fits_channel(*channel, size, digest@),
{
    let size_fits: bool = match channel.size_bytes {
        Some(expected) => expected == size,
        None => true,
    };
    let digest_fits: bool = match &channel.expected_digest {
        Some(expected) => same(expected.as_str(), digest),
        None => true,
    };
    size_fits && digest_fits
}

/// Whether the headers of an upload declare exactly this.
pub open spec fn declares(headers: &HeaderMap, declaration: UploadDeclaration) -> bool {
    &&& headers::header_number(headers, "x-morphz-artifact-offset"@) == Some(declaration.offset)
    &&& headers::header_number(headers, "x-morphz-artifact-total-size"@) == Some(declaration.total)
    &&& headers.header("x-morphz-content-digest"@).readable() == Some(declaration.digest@)
}

/// Why the declaration of an upload is refused.
pub open spec fn declaration_fault(headers: &HeaderMap, channel: ArtifactChannel) -> Option<
    ErrorReply,
> {
    let offset = headers::header_number(headers, "x-morphz-artifact-offset"@);
    let total = headers::header_number(headers, "x-morphz-artifact-total-size"@);
    let digest = headers.header("x-morphz-content-digest"@).readable();
    if offset is None {
        Some(error::error_reply(400, Message::Header("x-morphz-artifact-offset")))
    } else if total is None {
        Some(error::error_reply(400, Message::Header("x-morphz-artifact-total-size")))
    } else if digest is None {
        Some(error::error_reply(400, Message::Fixed("missing Artifact digest")))
    } else if !fits_channel(channel, total->0, digest->0) {
        Some(
            error::error_reply(
                409,
                Message::Fixed("upload declaration does not match the frozen channel"),
            ),
        )
    } else {
        None
    }
}

/// What an upload declares. It must fit what was frozen.
pub fn upload_declaration(headers: &HeaderMap, channel: &ArtifactChannel) -> (r: Result<
    UploadDeclaration,
    ErrorReply,
>)
    ensures
        match declaration_fault(headers, *channel) {
            Some(refusal) => r == Err::<UploadDeclaration, ErrorReply>(refusal),
            None => r matches Ok(declaration) && declares(headers, declaration),
        },
{
    let offset: u64 = match required_u64_header(headers, "x-morphz-artifact-offset") {
        Ok(n) => n,
        Err(refusal) => {
            return Err(refusal);
        },
    };
    let total: u64 = match required_u64_header(headers, "x-morphz-artifact-total-size") {
        Ok(n) => n,
        Err(refusal) => {
            return Err(refusal);
        },
    };
    let digest: String = match headers.get("x-morphz-content-digest") {
        HeaderText::Text(text) => text.to_owned(),
        _ => {
            return Err(error_response(400, Message::Fixed("missing Artifact digest")));
        },
    };
    if !fits(channel, total, digest.as_str()) {
        return Err(
            error_response(
                409,
                Message::Fixed("upload declaration does not match the frozen channel"),
            ),
        );
    }
    Ok(UploadDeclaration { offset, total, digest })
}

/// A running upload.
pub struct Upload {
    pub declaration: UploadDeclaration,
    pub channel: ArtifactChannel,
    /// How many bytes the artifact has so far.
    pub size_bytes: u64,
    pub hasher: ContentHasher,
}

/// How an upload starts.
pub enum UploadStart {
    Running(Upload),
    /// The artifact is there already.
    Finished { digest: String, size_bytes: u64 },
    /// The upload does not go on where the stored part ends.
    OffsetConflict { refusal: ErrorReply, expected_offset: u64 },
}

/// Starts or resumes an upload at the end of the stored part. One whose artifact is there already,
/// of the given size, has nothing left to do.
pub fn begin_upload(
    declaration: UploadDeclaration,
    channel: ArtifactChannel,
    finished_bytes: Option<u64>,
    stored_bytes: u64,
) -> (r: UploadStart)
    ensures
        if finished_bytes is Some {
            r == (UploadStart::Finished {
                digest: declaration.digest,
                size_bytes: finished_bytes->0,
            })
        } else if declaration.offset == stored_bytes {
            r matches UploadStart::Running(upload) && upload.declaration == declaration
                && upload.channel == channel && upload.size_bytes == stored_bytes
                && digest::hashed_bytes(upload.hasher) == Seq::<u8>::empty()
        } else {
            r == (UploadStart::OffsetConflict {
                refusal: error::error_reply(409, Message::Fixed("Artifact upload offset conflict")),
                expected_offset: stored_bytes,
            })
        },
{
    match finished_bytes {
        Some(size) => {
            return UploadStart::Finished { digest: declaration.digest, size_bytes: size };
        },
        None => {},
    }
    if declaration.offset != stored_bytes {
        return UploadStart::OffsetConflict {
            refusal: error_response(409, Message::Fixed("Artifact upload offset conflict")),
            expected_offset: stored_bytes,
        };
    }
    UploadStart::Running(
        Upload { declaration, channel, size_bytes: stored_bytes, hasher: ContentHasher::start() },
    )
}

/// How an upload ends.
pub enum UploadEnd {
    /// More is to come: the stored part stays.
    Incomplete(ErrorReply),
    /// The content is not what was declared: the stored part is deleted.
    Discard(ErrorReply),
    /// The content is stored for good.
    Commit { digest: String, size_bytes: u64 },
}

/// The size after a chunk.
pub open spec fn grown(size: u64, chunk: nat) -> u64 {
    if size + chunk > u64::MAX {
        u64::MAX
    } else {
        (size + chunk) as u64
    }
}

impl Upload {
    /// A part that was stored before.
    pub fn on_stored(&mut self, bytes: &[u8])
        ensures
            final(self).declaration == old(self).declaration,
            final(self).channel == old(self).channel,
            final(self).size_bytes == old(self).size_bytes,
            digest::hashed_bytes(final(self).hasher) == digest::hashed_bytes(old(self).hasher)
                + bytes@,
    {
        self.hasher.take_in(bytes);
    }

    /// A chunk that arrived. One that goes over the frozen size is refused and not stored.
    pub fn on_chunk(&mut self, bytes: &[u8]) -> (r: Result<(), ErrorReply>)
        ensures
            final(self).declaration == old(self).declaration,
            final(self).channel == old(self).channel,
            final(self).size_bytes == grown(old(self).size_bytes, bytes@.len()),
            if old(self).channel.size_bytes matches Some(expected) && final(self).size_bytes
                > expected {
                &&& r == Err::<(), ErrorReply>(
                    error::error_reply(
                        413,
                        Message::Fixed("Artifact upload exceeds the frozen size"),
                    ),
                )
                &&& digest::hashed_bytes(final(self).hasher) == digest::hashed_bytes(
                    old(self).hasher,
                )
            } else {
                &&& r is Ok
                &&& digest::hashed_bytes(final(self).hasher) == digest::hashed_bytes(
                    old(self).hasher,
                ) + bytes@
            },
    {
        let len: u64 = bytes.len() as u64;
        self.size_bytes = if self.size_bytes > u64::MAX - len {
            u64::MAX
        } else {
            self.size_bytes + len
        };
        match self.channel.size_bytes {
            Some(expected) => {
                if self.size_bytes > expected {
                    return Err(
                        error_response(
                            413,
                            Message::Fixed("Artifact upload exceeds the frozen size"),
                        ),
                    );
                }
            },
            None => {},
        }
        self.hasher.take_in(bytes);
        Ok(())
    }

    /// Whether an upload in this state ends like this.
    pub open spec fn ends_as(self, end: UploadEnd) -> bool {
        let digest = digest::named_digest(digest::hashed_bytes(self.hasher));
        if self.size_bytes != self.declaration.total {
            end == UploadEnd::Incomplete(
                error::error_reply(
                    409,
                    Message::Fixed("Artifact upload has not reached the declared size"),
                ),
            )
        } else if !fits_channel(self.channel, self.size_bytes, digest) {
            end == UploadEnd::Discard(
                error::error_reply(
                    409,
                    Message::Fixed(
                        "Artifact upload digest or size does not match the frozen channel",
                    ),
                ),
            )
        } else if digest != self.declaration.digest@ {
            end == UploadEnd::Discard(
                error::error_reply(
                    409,
                    Message::Fixed("Artifact upload digest does not match the declaration"),
                ),
            )
        } else {
            end matches UploadEnd::Commit { digest: stored, size_bytes } && stored@ == digest
                && size_bytes == self.size_bytes
        }
    }

    /// The end of the request. Only content of the declared size and digest, which fits what was
    /// frozen, is stored for good.
    pub fn finish(self) -> (r: UploadEnd)
        ensures
            self.ends_as(r),
    {
        let Upload { declaration, channel, size_bytes, hasher } = self;
        if size_bytes != declaration.total {
            return UploadEnd::Incomplete(
                error_response(
                    409,
                    Message::Fixed("Artifact upload has not reached the declared size"),
                ),
            );
        }
        let digest = digest_name(&hasher.finish());
        if !fits(&channel, size_bytes, digest.as_str()) {
            return UploadEnd::Discard(
                error_response(
                    409,
                    Message::Fixed(
                        "Artifact upload digest or size does not match the frozen channel",
                    ),
                ),
            );
        }
        if !same(digest.as_str(), declaration.digest.as_str()) {
            return UploadEnd::Discard(
                error_response(
                    409,
                    Message::Fixed("Artifact upload digest does not match the declaration"),
                ),
            );
        }
        UploadEnd::Commit { digest, size_bytes }
    }
}

/// How far an upload got: the whole artifact, or the stored part of it.
pub struct UploadProgress {
    pub offset: u64,
    pub completed: bool,
}

pub fn upload_progress(final_exists: bool, final_bytes: Option<u64>, partial_bytes: Option<u64>) -> (r:
    UploadProgress)
    ensures
        r.completed == final_exists,
        r.offset == match if final_exists {
            final_bytes
        } else {
            partial_bytes
        } {
            Some(n) => n,
            None => 0,
        },
{
    let found: Option<u64> = if final_exists {
        final_bytes
    } else {
        partial_bytes
    };
    UploadProgress {
        offset: match found {
            Some(n) => n,
            None => 0,
        },
        completed: final_exists,
    }
}

/// What is stored for a download.
#[derive(PartialEq, Eq, Structural, Clone, Copy, Debug)]
pub enum StageFile {
    File(u64),
    NotAFile,
    Missing,
    Unreadable,
}

/// How a download is answered: from which byte on, how many bytes, and out of how many.
pub struct Download {
    pub status: u16,
    pub offset: u64,
    pub length: u64,
    pub total: u64,
    pub digest: Option<String>,
}

pub open spec fn download_fault(
    stage: StageFile,
    channel: ArtifactChannel,
    offset: u64,
) -> Option<ErrorReply> {
    match stage {
        StageFile::NotAFile => Some(
            error::error_reply(409, Message::Fixed("Artifact stage is not a regular file")),
        ),
        StageFile::Missing => Some(
            error::error_reply(404, Message::Fixed("Artifact stage does not exist")),
        ),
        StageFile::Unreadable => Some(reply::internal_reply()),
        StageFile::File(size) => if channel.size_bytes matches Some(expected) && expected != size {
            Some(
                error::error_reply(
                    409,
                    Message::Fixed("Artifact stage size does not match the frozen channel"),
                ),
            )
        } else if offset > size {
            Some(
                error::error_reply(
                    416,
                    Message::Fixed("Artifact download offset exceeds the frozen size"),
                ),
            )
        } else {
            None
        },
    }
}

/// How a download from an offset is answered.
pub fn plan_download(stage: StageFile, channel: ArtifactChannel, offset: u64) -> (r: Result<
    Download,
    ErrorReply,
>)
    ensures
        match download_fault(stage, channel, offset) {
            Some(refusal) => r == Err::<Download, ErrorReply>(refusal),
            None => stage matches StageFile::File(size) && r == Ok::<Download, ErrorReply>(
                Download {
                    status: if offset > 0 {
                        206
                    } else {
                        200
                    },
                    offset,
                    length: (size - offset) as u64,
                    total: size,
                    digest: channel.expected_digest,
                },
            ),
        },
{
    let size: u64 = match stage {
        StageFile::File(size) => size,
        StageFile::NotAFile => {
            return Err(
                error_response(409, Message::Fixed("Artifact stage is not a regular file")),
            );
        },
        StageFile::Missing => {
            return Err(error_response(404, Message::Fixed("Artifact stage does not exist")));
        },
        StageFile::Unreadable => {
            return Err(internal_response());
        },
    };
    match channel.size_bytes {
        Some(expected) => {
            if expected != size {
                return Err(
                    error_response(
                        409,
                        Message::Fixed("Artifact stage size does not match the frozen channel"),
                    ),
                );
            }
        },
        None => {},
    }
    if offset > size {
        return Err(
            error_response(416, Message::Fixed("Artifact download offset exceeds the frozen size")),
        );
    }
    Ok(
        Download {
            status: if offset > 0 {
                206
            } else {
                200
            },
            offset,
            length: size - offset,
            total: size,
            digest: channel.expected_digest,
        },
    )
}

/// Whether a job is a transfer of an artifact.
pub fn transfer_job_reply(job: Json, tool_name: &str, transfer_tool: &str) -> (r: Result<
    Reply,
    ErrorReply,
>)
    ensures
        r == if tool_name@ == transfer_tool@ {
            Ok::<Reply, ErrorReply>(Reply { status: 200, body: Body::Value(job) })
        } else {
            Err(
                error::error_reply(
                    400,
                    Message::Fixed("Execution Job is not an Artifact Transfer"),
                ),
            )
        },
{
    if same(tool_name, transfer_tool) {
        Ok(Reply { status: 200, body: Body::Value(job) })
    } else {
        Err(error_response(400, Message::Fixed("Execution Job is not an Artifact Transfer")))
    }
}

/// How long a claim waits for a command, in seconds.
pub fn claim_wait_seconds(asked: Option<u64>) -> (r: u64)
    ensures
        r == match asked {
            None => 20,
            Some(n) => if n > 25 {
                25
            } else {
                n
            },
        },
{
    match asked {
        None => 20,
        Some(n) => if n > 25 {
            25
        } else {
            n
        },
    }
}

/// The longest pause between two looks for a command, in nanoseconds.
pub const CLAIM_PAUSE_NANOS: u64 = 5_000_000_000;

/// What a claim does next.
pub enum ClaimStep {
    /// Wait this long for a change, then look again.
    Wait { nanos: u64 },
    Answer(Result<Reply, ErrorReply>),
}

/// What a look for work means for a node that waits for some.
pub open spec fn claim_outcome(
    found: Result<Option<Json>, SdkError>,
    remaining_nanos: u64,
) -> ClaimStep {
    match found {
        Ok(Some(job)) => ClaimStep::Answer(
            Ok(Reply { status: 200, body: Body::Named { name: "job", value: job } }),
        ),
        Ok(None) => if remaining_nanos > 0 {
            ClaimStep::Wait {
                nanos: if remaining_nanos < CLAIM_PAUSE_NANOS {
                    remaining_nanos
                } else {
                    CLAIM_PAUSE_NANOS
                },
            }
        } else {
            ClaimStep::Answer(Ok(Reply { status: 204, body: Body::Empty }))
        },
        Err(refusal) => ClaimStep::Answer(Err(error::sdk_reply(refusal))),
    }
}

/// What a look for a command means, with this much time left.
pub fn claim_step(found: Result<Option<Json>, SdkError>, remaining_nanos: u64) -> (r: ClaimStep)
    ensures
        r == claim_outcome(found, remaining_nanos),
{
    match found {
        Ok(Some(job)) => ClaimStep::Answer(
            Ok(Reply { status: 200, body: Body::Named { name: "job", value: job } }),
        ),
        Ok(None) => if remaining_nanos > 0 {
            ClaimStep::Wait {
                nanos: if remaining_nanos < CLAIM_PAUSE_NANOS {
                    remaining_nanos
                } else {
                    CLAIM_PAUSE_NANOS
                },
            }
        } else {
            ClaimStep::Answer(Ok(Reply { status: 204, body: Body::Empty }))
        },
        Err(refusal) => ClaimStep::Answer(Err(sdk_error_response(refusal))),
    }
}

/// A download is never longer than what is stored, and starts where it was asked to.
pub proof fn law_download_stays_within_the_artifact(
    stage: StageFile,
    channel: ArtifactChannel,
    offset: u64,
)
    requires
        download_fault(stage, channel, offset) is None,
    ensures
        stage matches StageFile::File(size) && offset <= size && (channel.size_bytes matches Some(
            expected,
        ) ==> expected == size),
{
}

/// It does not matter where an upload is cut into chunks.
pub proof fn law_chunks_may_be_cut_anywhere(
    size: u64,
    taken_in: Seq<u8>,
    first: Seq<u8>,
    second: Seq<u8>,
)
    ensures
        grown(grown(size, first.len()), second.len()) == grown(size, (first + second).len()),
        (taken_in + first) + second == taken_in + (first + second),
        grown(size, first.len()) >= size,
{
    assert((taken_in + first) + second =~= taken_in + (first + second));
}

/// What is stored for good is exactly what was taken in, and both the declaration and what was
/// frozen say so.
pub proof fn law_commits_are_what_was_declared(upload: Upload, end: UploadEnd)
    requires
        upload.ends_as(end),
        end is Commit,
    ensures
        end->digest@ == digest::named_digest(digest::hashed_bytes(upload.hasher)),
        end->digest@ == upload.declaration.digest@,
        end->size_bytes == upload.declaration.total,
        fits_channel(upload.channel, end->size_bytes, end->digest@),
{
}

/// An upload fits what was frozen where both the size and the digest do, each where it was frozen.
pub proof fn law_frozen_sizes_and_digests_bind(
    channel: ArtifactChannel,
    size: u64,
    digest: Seq<char>,
)
    ensures
        fits_channel(channel, size, digest) <==> (channel.size_bytes is None || channel.size_bytes
            == Some(size)) && (channel.expected_digest is None || channel.expected_digest->0@
            == digest),
{
}

/// An upload declares its offset, its size and its digest, each in its own header; what is missing or
/// is no number is a bad request, and what does not fit what was frozen is a conflict.
pub proof fn law_uploads_declare_themselves_in_headers(
    headers: &HeaderMap,
    channel: ArtifactChannel,
    declaration: UploadDeclaration,
)
    ensures
        ({
            let offset = headers::header_number(headers, "x-morphz-artifact-offset"@);
            let total = headers::header_number(headers, "x-morphz-artifact-total-size"@);
            let digest = headers.header("x-morphz-content-digest"@).readable();
            let whole = offset is Some && total is Some && digest is Some;
            &&& !whole ==> (declaration_fault(headers, channel) matches Some(reply) && reply.status
                == 400)
            &&& whole && !fits_channel(channel, total->0, digest->0) ==> (declaration_fault(
                headers,
                channel,
            ) matches Some(reply) && reply.status == 409)
            &&& whole && fits_channel(channel, total->0, digest->0) ==> declaration_fault(
                headers,
                channel,
            ) is None
            &&& declares(headers, declaration) ==> offset == Some(declaration.offset) && total
                == Some(declaration.total) && digest == Some(declaration.digest@)
        }),
{
}

/// How an upload ends. Short of its declared size it is kept for later; with the wrong digest, or
/// against what was frozen, it is thrown away; and what is whole and right is stored for good.
pub proof fn law_uploads_end_by_what_arrived(upload: Upload, end: UploadEnd)
    requires
        upload.ends_as(end),
    ensures
        ({
            let digest = "sha256:"@ + digest::hex(
                digest::sha256(digest::hashed_bytes(upload.hasher)),
            );
            let whole = upload.size_bytes == upload.declaration.total;
            let frozen = (upload.channel.size_bytes is None || upload.channel.size_bytes == Some(
                upload.size_bytes,
            )) && (upload.channel.expected_digest is None || upload.channel.expected_digest->0@
                == digest);
            &&& !whole <==> end is Incomplete
            &&& end is Commit <==> whole && frozen && digest == upload.declaration.digest@
            &&& end is Discard <==> whole && !(frozen && digest == upload.declaration.digest@)
            &&& end matches UploadEnd::Incomplete(reply) ==> reply.status == 409
            &&& end matches UploadEnd::Discard(reply) ==> reply.status == 409
            &&& end matches UploadEnd::Commit { digest: stored, size_bytes } ==> stored@ == digest
                && size_bytes == upload.size_bytes
        }),
{
}

/// An upload grows by its chunks.
pub proof fn law_uploads_grow_by_their_chunks(size: u64, chunk: nat)
    ensures
        size + chunk <= u64::MAX ==> grown(size, chunk) == size + chunk,
        size + chunk > u64::MAX ==> grown(size, chunk) == u64::MAX,
{
}

/// A download is refused where there is no file, where it is not of the frozen size, and where it is
/// to start behind its end; each with its status, and for nothing else.
pub proof fn law_downloads_are_refused_for_cause_only(
    stage: StageFile,
    channel: ArtifactChannel,
    offset: u64,
)
    ensures
        stage == StageFile::Missing ==> (download_fault(stage, channel, offset) matches Some(reply)
            && reply.status == 404),
        stage == StageFile::NotAFile ==> (download_fault(stage, channel, offset) matches Some(reply)
            && reply.status == 409),
        stage == StageFile::Unreadable ==> (download_fault(stage, channel, offset) matches Some(
            reply,
        ) && reply.status == 500),
        stage matches StageFile::File(size) ==> {
            let other = channel.size_bytes matches Some(expected) && expected != size;
            &&& other ==> (download_fault(stage, channel, offset) matches Some(reply)
                && reply.status == 409)
            &&& !other && offset > size ==> (download_fault(stage, channel, offset) matches Some(
                reply,
            ) && reply.status == 416)
            &&& !other && offset <= size ==> download_fault(stage, channel, offset) is None
        },
{
}

/// A node that asks for work is answered at once where there is some, and otherwise looks again within
/// five seconds and within the time that it has; when the time is up it is answered with nothing.
pub proof fn law_claims_wait_no_longer_than_they_may(
    found: Result<Option<Json>, SdkError>,
    remaining_nanos: u64,
)
    ensures
        found matches Ok(Some(job)) ==> (claim_outcome(found, remaining_nanos) matches
            ClaimStep::Answer(Ok(reply)) && reply.status == 200 && reply.body == (Body::Named {
            name: "job",
            value: job,
        })),
        found matches Err(refusal) ==> claim_outcome(found, remaining_nanos) == ClaimStep::Answer(
            Err(error::sdk_reply(refusal)),
        ),
        found matches Ok(None) ==> {
            &&& remaining_nanos == 0 ==> (claim_outcome(found, remaining_nanos) matches
                ClaimStep::Answer(Ok(reply)) && reply.status == 204 && reply.body == Body::Empty)
            &&& 0 < remaining_nanos <= 5_000_000_000 ==> claim_outcome(found, remaining_nanos) == (
            ClaimStep::Wait { nanos: remaining_nanos })
            &&& remaining_nanos > 5_000_000_000 ==> claim_outcome(found, remaining_nanos) == (
            ClaimStep::Wait { nanos: 5_000_000_000 })
        },
{
}

/// A failed upload or download says what did not fit.
pub proof fn law_failed_transfers_say_why(
    upload: Upload,
    end: UploadEnd,
    size: u64,
    channel: ArtifactChannel,
    offset: u64,
)
    requires
        upload.ends_as(end),
    ensures
        end matches UploadEnd::Incomplete(reply) ==> reply.message@
            == "Artifact upload has not reached the declared size"@,
        end matches UploadEnd::Discard(reply) ==> reply.message@ == if fits_channel(
            upload.channel,
            upload.size_bytes,
            digest::named_digest(digest::hashed_bytes(upload.hasher)),
        ) {
            "Artifact upload digest does not match the declaration"@
        } else {
            "Artifact upload digest or size does not match the frozen channel"@
        },
        download_fault(StageFile::Missing, channel, offset) matches Some(reply) && reply.message@
            == "Artifact stage does not exist"@,
        download_fault(StageFile::NotAFile, channel, offset) matches Some(reply) && reply.message@
            == "Artifact stage is not a regular file"@,
        channel.size_bytes matches Some(expected) ==> (expected != size ==> (download_fault(
            StageFile::File(size),
            channel,
            offset,
        ) matches Some(reply) && reply.message@
            == "Artifact stage size does not match the frozen channel"@)),
        channel.size_bytes is None && offset > size ==> (download_fault(
            StageFile::File(size),
            channel,
            offset,
        ) matches Some(reply) && reply.message@
            == "Artifact download offset exceeds the frozen size"@),
{
}

} // verus!
