//! The upload of a file to a user: prepared, sent part by part, completed, and then shown in a
//! message.
//!
//! [`MediaTransfer`] says at each point what is to be done next; its caller does it and reports
//! what came of it.
use crate::digest::{md5_of, md5_sum};
use crate::json::{entry, law_members_are_found, member, object, JsonView, Payload};
use crate::media::MediaType;
use crate::qq_api::{
    files_url, law_addresses_name_the_user, law_media_message_shows_its_file,
    law_preparation_describes_the_file, media_message, prepare_document, prepare_payload,
    send_c2c_media, upload_part_finish_url, upload_prepare_url, user_address, QqError,
};
use crate::text::{
    decimal, hex, law_decimal_reads_back, parse_u64, to_hex, u64_to_decimal, u64_value,
};
use vstd::prelude::*;

verus! {

/// The model of an [`UploadPart`].
pub struct UploadPartView {
    pub index: u32,
    pub presigned_url: Seq<char>,
    pub block_size: Seq<char>,
}

/// A part that the upload of a file is divided in.
#[derive(Debug)]
pub struct UploadPart {
    pub index: u32,
    pub presigned_url: String,
    pub block_size: String,
}

impl UploadPart {
    /// The model of the part.
    pub open spec fn view(&self) -> UploadPartView {
        UploadPartView {
            index: self.index,
            presigned_url: self.presigned_url@,
            block_size: self.block_size@,
        }
    }
}

/// The models of a row of parts.
pub open spec fn part_views(parts: Seq<UploadPart>) -> Seq<UploadPartView> {
    Seq::new(parts.len(), |i: int| parts[i]@)
}

/// What the preparation of an upload is answered.
#[derive(Debug)]
pub struct UploadPrepareResponse {
    pub upload_id: String,
    pub parts: Vec<UploadPart>,
}

/// How many bytes go into a part, given what its block size says and how much of the file is
/// left.
pub open spec fn part_size(block_size: Seq<char>, remaining: u64) -> Result<u64, QqError> {
    match u64_value(block_size) {
        None => Err(QqError::InvalidBlockSize),
        Some(block_size) => if block_size == 0 || remaining == 0 {
            Err(QqError::InvalidPart)
        } else {
            let size = if block_size < remaining {
                block_size
            } else {
                remaining
            };
            if size <= usize::MAX {
                Ok(size)
            } else {
                Err(QqError::PartTooLarge)
            }
        },
    }
}

/// The sum of a row of sizes.
pub open spec fn total(sizes: Seq<u64>) -> nat
    decreases sizes.len(),
{
    if sizes.len() == 0 {
        0
    } else {
        total(sizes.drop_last()) + sizes.last() as nat
    }
}

/// How many bytes went into each of the first `count` parts of a file; nothing where one of
/// them cannot be filled.
pub open spec fn filled_sizes(parts: Seq<UploadPartView>, file_size: u64, count: nat) -> Option<
    Seq<u64>,
>
    decreases count,
{
    if count == 0 {
        Some(Seq::empty())
    } else {
        match filled_sizes(parts, file_size, (count - 1) as nat) {
            None => None,
            Some(sizes) => match part_size(
                parts[count - 1].block_size,
                (file_size - total(sizes)) as u64,
            ) {
                Ok(size) => Some(sizes.push(size)),
                Err(_) => None,
            },
        }
    }
}

/// The model of an [`UploadStep`].
pub enum UploadStepView {
    Part { index: u32, presigned_url: Seq<char>, size: usize },
    Complete,
}

/// What an upload needs next.
#[derive(Debug)]
pub enum UploadStep<'a> {
    /// The next so many bytes of the file, as the part with this index, at this address.
    Part { index: u32, presigned_url: &'a str, size: usize },
    /// Nothing but its completion.
    Complete,
}

impl<'a> UploadStep<'a> {
    /// The model of the step.
    pub open spec fn view(&self) -> UploadStepView {
        match self {
            UploadStep::Part { index, presigned_url, size } => UploadStepView::Part {
                index: *index,
                presigned_url: presigned_url@,
                size: *size,
            },
            UploadStep::Complete => UploadStepView::Complete,
        }
    }
}

/// The model of a [`MediaUpload`]: the parts, how many of them are done, and how many bytes of
/// the file are left.
pub struct MediaUploadView {
    pub upload_id: Seq<char>,
    pub file_size: u64,
    pub parts: Seq<UploadPartView>,
    pub done: nat,
    pub remaining: u64,
}

impl MediaUploadView {
    /// What the upload needs next, or why it cannot go on.
    pub open spec fn next_step(self) -> Result<UploadStepView, QqError> {
        if self.done < self.parts.len() {
            let part = self.parts[self.done as int];
            match part_size(part.block_size, self.remaining) {
                Err(error) => Err(error),
                Ok(size) => Ok(
                    UploadStepView::Part {
                        index: part.index,
                        presigned_url: part.presigned_url,
                        size: size as usize,
                    },
                ),
            }
        } else if self.remaining == 0 {
            Ok(UploadStepView::Complete)
        } else {
            Err(QqError::PartsTooSmall)
        }
    }

    /// The upload after the next part is done; unchanged where there is no next part.
    pub open spec fn part_done(self) -> MediaUploadView {
        match self.next_step() {
            Ok(UploadStepView::Part { size, .. }) => MediaUploadView {
                done: self.done + 1,
                remaining: (self.remaining - size) as u64,
                ..self
            },
            _ => self,
        }
    }

    /// What is left is what the parts that are done have not taken.
    pub open spec fn wf(self) -> bool {
        &&& self.done <= self.parts.len()
        &&& filled_sizes(self.parts, self.file_size, self.done) matches Some(sizes)
        &&& total(sizes) + self.remaining == self.file_size
    }
}

/// The upload of a file, part by part.
#[derive(Debug)]
pub struct MediaUpload {
    upload_id: String,
    file_size: u64,
    parts: Vec<UploadPart>,
    done: usize,
    remaining: u64,
}

impl MediaUpload {
    /// The model of the upload.
    pub closed spec fn view(&self) -> MediaUploadView {
        MediaUploadView {
            upload_id: self.upload_id@,
            file_size: self.file_size,
            parts: part_views(self.parts@),
            done: self.done as nat,
            remaining: self.remaining,
        }
    }

    /// Begins an upload as it was prepared, unless there is no part to it.
    pub fn new(prepared: UploadPrepareResponse, file_size: u64) -> (r: Result<MediaUpload, QqError>)
        ensures
            match r {
                Ok(upload) => {
                    &&& prepared.parts@.len() > 0
                    &&& upload@.wf()
                    &&& upload@ == MediaUploadView {
                        upload_id: prepared.upload_id@,
                        file_size,
                        parts: part_views(prepared.parts@),
                        done: 0,
                        remaining: file_size,
                    }
                },
                Err(error) => prepared.parts@.len() == 0 && error == QqError::NoParts,
            },
    {
        if prepared.parts.len() == 0 {
            return Err(QqError::NoParts);
        }
        Ok(
            MediaUpload {
                upload_id: prepared.upload_id,
                file_size,
                parts: prepared.parts,
                done: 0,
                remaining: file_size,
            },
        )
    }

    /// What the upload needs next, or why it cannot go on.
    pub fn next_step(&self) -> (r: Result<UploadStep<'_>, QqError>)
        requires
            self@.wf(),
        ensures
            self@.next_step() == match r {
                Ok(step) => Ok(step@),
                Err(error) => Err(error),
            },
    {
        if self.done < self.parts.len() {
            let part = &self.parts[self.done];
            assert(part@ == self@.parts[self@.done as int]);
            let block_size: u64 = match parse_u64(part.block_size.as_str()) {
                Some(block_size) => block_size,
                None => {
                    return Err(QqError::InvalidBlockSize);
                },
            };
            if block_size == 0 || self.remaining == 0 {
                return Err(QqError::InvalidPart);
            }
            let size: u64 = if block_size < self.remaining {
                block_size
            } else {
                self.remaining
            };
            if size > usize::MAX as u64 {
                return Err(QqError::PartTooLarge);
            }
            Ok(
                UploadStep::Part {
                    index: part.index,
                    presigned_url: part.presigned_url.as_str(),
                    size: size as usize,
                },
            )
        } else if self.remaining == 0 {
            Ok(UploadStep::Complete)
        } else {
            Err(QqError::PartsTooSmall)
        }
    }

    /// The document that confirms the next part, given the size and the checksum of what went
    /// into it.
    fn part_finish_payload(&self, size: usize, md5: String) -> (r: Payload)
        requires
            self@.done < self@.parts.len(),
        ensures
            r@ == part_finish_document(
                self@.upload_id,
                self@.parts[self@.done as int].index,
                size as nat,
                md5@,
            ),
    {
        let part = &self.parts[self.done];
        assert(part@ == self@.parts[self@.done as int]);
        let entries = vec![
            entry("upload_id", Payload::Text(self.upload_id.clone())),
            entry("part_index", Payload::UInt(part.index as u64)),
            entry("block_size", Payload::Text(u64_to_decimal(size as u64))),
            entry("md5", Payload::Text(md5)),
        ];
        assert(Payload::entry_views(entries@) =~= seq![
            ("upload_id"@, JsonView::Text(self@.upload_id)),
            ("part_index"@, JsonView::Integer(part.index as int)),
            ("block_size"@, JsonView::Text(decimal(size as nat))),
            ("md5"@, JsonView::Text(md5@)),
        ]);
        Payload::Object(entries)
    }

    /// Where the next part is put.
    fn next_part_url(&self) -> (r: &str)
        requires
            self@.done < self@.parts.len(),
        ensures
            r@ == next_part_url(self@),
    {
        let part = &self.parts[self.done];
        assert(part@ == self@.parts[self@.done as int]);
        part.presigned_url.as_str()
    }

    /// Records that the next part is done.
    pub fn part_done(&mut self)
        requires
            old(self)@.wf(),
        ensures
            final(self)@ == old(self)@.part_done(),
            final(self)@.wf(),
    {
        let taken: usize = match self.next_step() {
            Ok(UploadStep::Part { size, .. }) => size,
            _ => {
                return;
            },
        };
        proof {
            let sizes = filled_sizes(self@.parts, self@.file_size, self@.done)->0;
            assert(sizes.push(taken as u64).drop_last() == sizes);
        }
        let count: usize = self.parts.len();
        assert(self.done < count);
        self.done = self.done + 1;
        self.remaining = self.remaining - taken as u64;
    }

    /// The document that completes the upload.
    fn complete_payload(&self, media_type: MediaType, file_name: &str) -> (r: Payload)
        ensures
            r@ == complete_document(self@.upload_id, media_type, file_name@),
    {
        let entries = vec![
            entry("file_type", Payload::UInt(media_type.code() as u64)),
            entry("file_name", Payload::Text(file_name.to_owned())),
            entry("upload_id", Payload::Text(self.upload_id.clone())),
        ];
        assert(Payload::entry_views(entries@) =~= seq![
            ("file_type"@, JsonView::Integer(media_type.code_spec() as int)),
            ("file_name"@, JsonView::Text(file_name@)),
            ("upload_id"@, JsonView::Text(self@.upload_id)),
        ]);
        Payload::Object(entries)
    }
}

/// The document that confirms a part of an upload.
pub open spec fn part_finish_document(
    upload_id: Seq<char>,
    index: u32,
    size: nat,
    md5: Seq<char>,
) -> JsonView {
    object(
        seq![
            ("upload_id"@, JsonView::Text(upload_id)),
            ("part_index"@, JsonView::Integer(index as int)),
            ("block_size"@, JsonView::Text(decimal(size))),
            ("md5"@, JsonView::Text(md5)),
        ],
    )
}

/// The document that completes an upload.
pub open spec fn complete_document(
    upload_id: Seq<char>,
    media_type: MediaType,
    file_name: Seq<char>,
) -> JsonView {
    object(
        seq![
            ("file_type"@, JsonView::Integer(media_type.code_spec() as int)),
            ("file_name"@, JsonView::Text(file_name)),
            ("upload_id"@, JsonView::Text(upload_id)),
        ],
    )
}

/// The model of a [`MediaJob`].
pub struct MediaJobView {
    pub openid: Seq<char>,
    pub file_name: Seq<char>,
    pub media_type: MediaType,
    pub file_size: u64,
}

/// Which file goes to which user, and as what.
#[derive(Debug)]
pub struct MediaJob {
    pub openid: String,
    pub file_name: String,
    pub media_type: MediaType,
    pub file_size: u64,
}

impl MediaJob {
    /// The model of the job.
    pub open spec fn view(&self) -> MediaJobView {
        MediaJobView {
            openid: self.openid@,
            file_name: self.file_name@,
            media_type: self.media_type,
            file_size: self.file_size,
        }
    }
}

/// The model of a [`TransferAction`].
pub enum TransferActionView {
    Prepare { url: Seq<char>, payload: JsonView },
    Read { size: nat },
    Put { url: Seq<char>, bytes: Seq<u8> },
    ConfirmPart { url: Seq<char>, payload: JsonView },
    Complete { url: Seq<char>, payload: JsonView },
    SendMessage { url: Seq<char>, payload: JsonView },
    Finish,
}

/// What is to be done next.
#[derive(Debug)]
pub enum TransferAction {
    /// Post the document; its answer lists the parts.
    Prepare { url: String, payload: Payload },
    /// Read the next so many bytes of the file.
    Read { size: usize },
    /// Put the bytes at the address.
    Put { url: String, bytes: Vec<u8> },
    /// Post the document, which confirms the part that was put.
    ConfirmPart { url: String, payload: Payload },
    /// Post the document; its answer describes the file that is now at QQ.
    Complete { url: String, payload: Payload },
    /// Post the document, which is the message.
    SendMessage { url: String, payload: Payload },
    /// Nothing: the file is with the user.
    Finish,
}

impl TransferAction {
    /// The model of the action.
    pub open spec fn view(&self) -> TransferActionView {
        match self {
            TransferAction::Prepare { url, payload } => TransferActionView::Prepare {
                url: url@,
                payload: payload@,
            },
            TransferAction::Read { size } => TransferActionView::Read { size: *size as nat },
            TransferAction::Put { url, bytes } => TransferActionView::Put {
                url: url@,
                bytes: bytes@,
            },
            TransferAction::ConfirmPart { url, payload } => TransferActionView::ConfirmPart {
                url: url@,
                payload: payload@,
            },
            TransferAction::Complete { url, payload } => TransferActionView::Complete {
                url: url@,
                payload: payload@,
            },
            TransferAction::SendMessage { url, payload } => TransferActionView::SendMessage {
                url: url@,
                payload: payload@,
            },
            TransferAction::Finish => TransferActionView::Finish,
        }
    }
}

/// The model of a [`TransferEvent`].
pub enum TransferEventView {
    Prepared { upload_id: Seq<char>, parts: Seq<UploadPartView> },
    Read(Seq<u8>),
    PutDone,
    PartConfirmed,
    Completed(Seq<char>),
    MessageSent,
}

/// What came of an action that succeeded.
#[derive(Debug)]
pub enum TransferEvent {
    /// The upload is prepared.
    Prepared(UploadPrepareResponse),
    /// The bytes are read.
    Read(Vec<u8>),
    /// The bytes are put.
    PutDone,
    /// The part is confirmed.
    PartConfirmed,
    /// The upload is complete; this describes the file to QQ.
    Completed(String),
    /// The message is sent.
    MessageSent,
}

impl TransferEvent {
    /// The model of the event.
    pub open spec fn view(&self) -> TransferEventView {
        match self {
            TransferEvent::Prepared(prepared) => TransferEventView::Prepared {
                upload_id: prepared.upload_id@,
                parts: part_views(prepared.parts@),
            },
            TransferEvent::Read(bytes) => TransferEventView::Read(bytes@),
            TransferEvent::PutDone => TransferEventView::PutDone,
            TransferEvent::PartConfirmed => TransferEventView::PartConfirmed,
            TransferEvent::Completed(file_info) => TransferEventView::Completed(file_info@),
            TransferEvent::MessageSent => TransferEventView::MessageSent,
        }
    }
}

/// How far a transfer is: what was asked for last.
pub enum TransferPhaseView {
    Preparing,
    Reading(MediaUploadView),
    Putting { upload: MediaUploadView, size: nat, md5: Seq<char> },
    Confirming(MediaUploadView),
    Completing(MediaUploadView),
    Sending,
    Finished,
}

/// The model of a [`MediaTransfer`].
pub struct MediaTransferView {
    pub job: MediaJobView,
    pub phase: TransferPhaseView,
}

/// Where a part of an upload is put.
pub open spec fn next_part_url(upload: MediaUploadView) -> Seq<char> {
    upload.parts[upload.done as int].presigned_url
}

impl MediaTransferView {
    /// A transfer at its beginning, given the checksums of the file, and what is to be done
    /// first.
    pub open spec fn start(
        job: MediaJobView,
        md5: Seq<char>,
        sha1: Seq<char>,
        md5_10m: Seq<char>,
    ) -> (MediaTransferView, TransferActionView) {
        (
            MediaTransferView { job, phase: TransferPhaseView::Preparing },
            TransferActionView::Prepare {
                url: user_address(job.openid, "upload_prepare"@),
                payload: prepare_document(
                    job.media_type,
                    job.file_size,
                    job.file_name,
                    md5,
                    sha1,
                    md5_10m,
                ),
            },
        )
    }

    /// The upload that the transfer is about, once it is prepared and until it is complete.
    pub open spec fn upload(self) -> Option<MediaUploadView> {
        match self.phase {
            TransferPhaseView::Reading(upload) => Some(upload),
            TransferPhaseView::Putting { upload, .. } => Some(upload),
            TransferPhaseView::Confirming(upload) => Some(upload),
            TransferPhaseView::Completing(upload) => Some(upload),
            _ => None,
        }
    }

    /// Whether an event is an answer to what was asked for last. Bytes that were read are as
    /// many as were asked for.
    pub open spec fn expects(self, event: TransferEventView) -> bool {
        match (self.phase, event) {
            (TransferPhaseView::Preparing, TransferEventView::Prepared { .. }) => true,
            (TransferPhaseView::Reading(upload), TransferEventView::Read(bytes)) => {
                upload.next_step() matches Ok(UploadStepView::Part { size, .. }) && bytes.len()
                    == size
            },
            (TransferPhaseView::Putting { .. }, TransferEventView::PutDone) => true,
            (TransferPhaseView::Confirming(_), TransferEventView::PartConfirmed) => true,
            (TransferPhaseView::Completing(_), TransferEventView::Completed(_)) => true,
            (TransferPhaseView::Sending, TransferEventView::MessageSent) => true,
            _ => false,
        }
    }

    /// The transfer with an upload of which the parts so far are done: the next part is read,
    /// or the upload is completed.
    pub open spec fn go_on(self, upload: MediaUploadView) -> Result<
        (MediaTransferView, TransferActionView),
        QqError,
    > {
        match upload.next_step() {
            Err(error) => Err(error),
            Ok(UploadStepView::Part { size, .. }) => Ok(
                (
                    MediaTransferView { phase: TransferPhaseView::Reading(upload), ..self },
                    TransferActionView::Read { size: size as nat },
                ),
            ),
            Ok(UploadStepView::Complete) => Ok(
                (
                    MediaTransferView { phase: TransferPhaseView::Completing(upload), ..self },
                    TransferActionView::Complete {
                        url: user_address(self.job.openid, "files"@),
                        payload: complete_document(
                            upload.upload_id,
                            self.job.media_type,
                            self.job.file_name,
                        ),
                    },
                ),
            ),
        }
    }

    /// The transfer after an event, and what is to be done next. An event that does not answer
    /// what was asked for last is an error.
    pub open spec fn step(self, event: TransferEventView) -> Result<
        (MediaTransferView, TransferActionView),
        QqError,
    > {
        if self.expects(event) {
            self.expected_step(event)
        } else {
            Err(QqError::OutOfTurn)
        }
    }

    /// The transfer after an event that answers what was asked for last.
    pub open spec fn expected_step(self, event: TransferEventView) -> Result<
        (MediaTransferView, TransferActionView),
        QqError,
    > {
        match (self.phase, event) {
            (
                TransferPhaseView::Preparing,
                TransferEventView::Prepared { upload_id, parts },
            ) => if parts.len() == 0 {
                Err(QqError::NoParts)
            } else {
                self.go_on(
                    MediaUploadView {
                        upload_id,
                        file_size: self.job.file_size,
                        parts,
                        done: 0,
                        remaining: self.job.file_size,
                    },
                )
            },
            (TransferPhaseView::Reading(upload), TransferEventView::Read(bytes)) => Ok(
                (
                    MediaTransferView {
                        phase: TransferPhaseView::Putting {
                            upload,
                            size: bytes.len(),
                            md5: hex(md5_sum(bytes)),
                        },
                        ..self
                    },
                    TransferActionView::Put { url: next_part_url(upload), bytes },
                ),
            ),
            (
                TransferPhaseView::Putting { upload, size, md5 },
                TransferEventView::PutDone,
            ) => Ok(
                (
                    MediaTransferView { phase: TransferPhaseView::Confirming(upload), ..self },
                    TransferActionView::ConfirmPart {
                        url: user_address(self.job.openid, "upload_part_finish"@),
                        payload: part_finish_document(
                            upload.upload_id,
                            upload.parts[upload.done as int].index,
                            size,
                            md5,
                        ),
                    },
                ),
            ),
            (TransferPhaseView::Confirming(upload), TransferEventView::PartConfirmed) => self.go_on(
                upload.part_done(),
            ),
            (TransferPhaseView::Completing(_), TransferEventView::Completed(file_info)) => Ok(
                (
                    MediaTransferView { phase: TransferPhaseView::Sending, ..self },
                    TransferActionView::SendMessage {
                        url: user_address(self.job.openid, "messages"@),
                        payload: media_message(file_info),
                    },
                ),
            ),
            (TransferPhaseView::Sending, TransferEventView::MessageSent) => Ok(
                (
                    MediaTransferView { phase: TransferPhaseView::Finished, ..self },
                    TransferActionView::Finish,
                ),
            ),
            (_, _) => Err(QqError::OutOfTurn),
        }
    }

    /// The upload is accounted for: a part is read, put and confirmed only where there is one,
    /// and the upload is completed only when the parts have taken the whole file.
    pub open spec fn wf(self) -> bool {
        match self.phase {
            TransferPhaseView::Preparing => true,
            TransferPhaseView::Reading(upload) => upload.has_part_of(self.job.file_size),
            TransferPhaseView::Putting { upload, size, .. } => upload.has_part_of(
                self.job.file_size,
            ) && upload.next_step()->Ok_0->size == size,
            TransferPhaseView::Confirming(upload) => upload.has_part_of(self.job.file_size),
            TransferPhaseView::Completing(upload) => upload.covers(self.job.file_size),
            TransferPhaseView::Sending => true,
            TransferPhaseView::Finished => true,
        }
    }
}

impl MediaUploadView {
    /// The upload of a file of this size, with a part left that can be filled.
    pub open spec fn has_part_of(self, file_size: u64) -> bool {
        self.wf() && self.file_size == file_size && self.next_step() matches Ok(
            UploadStepView::Part { .. },
        )
    }

    /// The upload of a file of this size, whose parts have taken the whole of it.
    pub open spec fn covers(self, file_size: u64) -> bool {
        self.wf() && self.file_size == file_size && self.next_step() == Ok::<_, QqError>(
            UploadStepView::Complete,
        )
    }
}

enum TransferPhase {
    Preparing,
    Reading(MediaUpload),
    Putting { upload: MediaUpload, size: usize, md5: String },
    Confirming(MediaUpload),
    Completing(MediaUpload),
    Sending,
    Finished,
}

/// The transfer of a file to a user.
pub struct MediaTransfer {
    job: MediaJob,
    phase: TransferPhase,
}

impl MediaTransfer {
    /// The model of the transfer.
    pub closed spec fn view(&self) -> MediaTransferView {
        MediaTransferView {
            job: self.job@,
            phase: match self.phase {
                TransferPhase::Preparing => TransferPhaseView::Preparing,
                TransferPhase::Reading(upload) => TransferPhaseView::Reading(upload@),
                TransferPhase::Putting { upload, size, md5 } => TransferPhaseView::Putting {
                    upload: upload@,
                    size: size as nat,
                    md5: md5@,
                },
                TransferPhase::Confirming(upload) => TransferPhaseView::Confirming(upload@),
                TransferPhase::Completing(upload) => TransferPhaseView::Completing(upload@),
                TransferPhase::Sending => TransferPhaseView::Sending,
                TransferPhase::Finished => TransferPhaseView::Finished,
            },
        }
    }

    /// Begins a transfer, given the checksums of the file.
    pub fn start(job: MediaJob, digests: (String, String, String)) -> (r: (
        MediaTransfer,
        TransferAction,
    ))
        ensures
            (r.0@, r.1@) == MediaTransferView::start(
                job@,
                digests.0@,
                digests.1@,
                digests.2@,
            ),
            r.0@.wf(),
            r.0@ == (MediaTransferView { job: job@, phase: TransferPhaseView::Preparing }),
            r.1@ == (TransferActionView::Prepare {
                url: user_address(job@.openid, "upload_prepare"@),
                payload: prepare_document(
                    job@.media_type,
                    job@.file_size,
                    job@.file_name,
                    digests.0@,
                    digests.1@,
                    digests.2@,
                ),
            }),
    {
        let url = upload_prepare_url(job.openid.as_str());
        let payload = prepare_payload(
            job.media_type,
            job.file_size,
            job.file_name.as_str(),
            digests,
        );
        (
            MediaTransfer { job, phase: TransferPhase::Preparing },
            TransferAction::Prepare { url, payload },
        )
    }

    fn go_on(job: MediaJob, upload: MediaUpload) -> (r: Result<
        (MediaTransfer, TransferAction),
        QqError,
    >)
        requires
            upload@.wf(),
            upload@.file_size == job@.file_size,
        ensures
            (MediaTransferView { job: job@, phase: TransferPhaseView::Finished }).go_on(upload@)
                == match r {
                Ok((transfer, action)) => Ok((transfer@, action@)),
                Err(error) => Err(error),
            },
            r matches Ok((transfer, _)) ==> transfer@.wf(),
    {
        let part: Option<usize> = match upload.next_step() {
            Ok(UploadStep::Part { size, .. }) => Some(size),
            Ok(UploadStep::Complete) => None,
            Err(error) => {
                return Err(error);
            },
        };
        match part {
            Some(size) => Ok(
                (
                    MediaTransfer { job, phase: TransferPhase::Reading(upload) },
                    TransferAction::Read { size },
                ),
            ),
            None => {
                let url = files_url(job.openid.as_str());
                let payload = upload.complete_payload(job.media_type, job.file_name.as_str());
                Ok(
                    (
                        MediaTransfer { job, phase: TransferPhase::Completing(upload) },
                        TransferAction::Complete { url, payload },
                    ),
                )
            },
        }
    }

    /// Decides after an action succeeded what is to be done next. Bytes that were read must be
    /// as many as were asked for.
    pub fn on_event(self, event: TransferEvent) -> (r: Result<
        (MediaTransfer, TransferAction),
        QqError,
    >)
        requires
            self@.wf(),
        ensures
            self@.step(event@) == match r {
                Ok((transfer, action)) => Ok((transfer@, action@)),
                Err(error) => Err(error),
            },
            r matches Ok((transfer, _)) ==> transfer@.wf(),
    {
        let job = self.job;
        match (self.phase, event) {
            (TransferPhase::Preparing, TransferEvent::Prepared(prepared)) => {
                match MediaUpload::new(prepared, job.file_size) {
                    Ok(upload) => MediaTransfer::go_on(job, upload),
                    Err(error) => Err(error),
                }
            },
            (TransferPhase::Reading(upload), TransferEvent::Read(bytes)) => {
                let size: usize = bytes.len();
                let asked: usize = match upload.next_step() {
                    Ok(UploadStep::Part { size, .. }) => size,
                    _ => {
                        return Err(QqError::OutOfTurn);
                    },
                };
                if size != asked {
                    return Err(QqError::OutOfTurn);
                }
                let md5 = to_hex(&md5_of(bytes.as_slice()));
                let url = upload.next_part_url().to_owned();
                Ok(
                    (
                        MediaTransfer {
                            job,
                            phase: TransferPhase::Putting { upload, size, md5 },
                        },
                        TransferAction::Put { url, bytes },
                    ),
                )
            },
            (TransferPhase::Putting { upload, size, md5 }, TransferEvent::PutDone) => {
                let url = upload_part_finish_url(job.openid.as_str());
                let payload = upload.part_finish_payload(size, md5);
                Ok(
                    (
                        MediaTransfer { job, phase: TransferPhase::Confirming(upload) },
                        TransferAction::ConfirmPart { url, payload },
                    ),
                )
            },
            (TransferPhase::Confirming(upload), TransferEvent::PartConfirmed) => {
                let mut upload = upload;
                upload.part_done();
                MediaTransfer::go_on(job, upload)
            },
            (TransferPhase::Completing(_), TransferEvent::Completed(file_info)) => {
                let request = send_c2c_media(job.openid.as_str(), file_info.as_str());
                Ok(
                    (
                        MediaTransfer { job, phase: TransferPhase::Sending },
                        TransferAction::SendMessage { url: request.url, payload: request.payload },
                    ),
                )
            },
            (TransferPhase::Sending, TransferEvent::MessageSent) => Ok(
                (
                    MediaTransfer { job, phase: TransferPhase::Finished },
                    TransferAction::Finish,
                ),
            ),
            (_, _) => Err(QqError::OutOfTurn),
        }
    }
}

/// Whether so many bytes are no more than the block size of a part says.
pub open spec fn fits_block(size: u64, part: UploadPartView) -> bool {
    match u64_value(part.block_size) {
        Some(block_size) => size <= block_size,
        None => false,
    }
}

/// No part that is filled is empty, none is larger than its block, every one but the last takes
/// its whole block, and together they never take more than the file.
pub proof fn law_parts_are_filled_within_bounds(
    parts: Seq<UploadPartView>,
    file_size: u64,
    count: nat,
)
    requires
        count <= parts.len(),
    ensures
        filled_sizes(parts, file_size, count) matches Some(sizes) ==> {
            &&& sizes.len() == count
            &&& total(sizes) <= file_size
            &&& forall|i: int|
                0 <= i < count ==> 0 < #[trigger] sizes[i] && fits_block(sizes[i], parts[i])
            &&& forall|i: int|
                0 <= i < count - 1 ==> u64_value(parts[i].block_size) == Some(#[trigger] sizes[i])
        },
    decreases count,
{
    if count > 0 {
        law_parts_are_filled_within_bounds(parts, file_size, (count - 1) as nat);
        if let Some(sizes) = filled_sizes(parts, file_size, count) {
            let before = filled_sizes(parts, file_size, (count - 1) as nat)->0;
            assert(sizes.drop_last() == before);
            assert forall|i: int| 0 <= i < count implies 0 < #[trigger] sizes[i] && fits_block(
                sizes[i],
                parts[i],
            ) by {
                if i < count - 1 {
                    assert(sizes[i] == before[i]);
                }
            }
            assert forall|i: int| 0 <= i < count - 1 implies u64_value(parts[i].block_size) == Some(
                #[trigger] sizes[i],
            ) by {
                assert(sizes[i] == before[i]);
                if i == count - 2 {
                    let earlier = filled_sizes(parts, file_size, (count - 2) as nat)->0;
                    law_parts_are_filled_within_bounds(parts, file_size, (count - 2) as nat);
                    assert(before.drop_last() == earlier);
                    assert(total(before) == total(earlier) + before[i]);
                }
            }
        }
    }
}

/// A file cut into consecutive blocks of these sizes.
pub open spec fn blocks(file: Seq<u8>, sizes: Seq<u64>) -> Seq<Seq<u8>>
    decreases sizes.len(),
{
    if sizes.len() == 0 {
        Seq::empty()
    } else {
        blocks(file, sizes.drop_last()).push(
            file.subrange(total(sizes.drop_last()) as int, total(sizes) as int),
        )
    }
}

proof fn lemma_blocks_join(file: Seq<u8>, sizes: Seq<u64>)
    requires
        total(sizes) <= file.len(),
    ensures
        blocks(file, sizes).flatten() == file.take(total(sizes) as int),
    decreases sizes.len(),
{
    if sizes.len() == 0 {
        assert(file.take(0) =~= Seq::<u8>::empty());
    } else {
        let before = blocks(file, sizes.drop_last());
        lemma_blocks_join(file, sizes.drop_last());
        before.lemma_flatten_push(
            file.subrange(total(sizes.drop_last()) as int, total(sizes) as int),
        );
    }
}

/// The file is read from its beginning to its end: what is asked for next is as much of it as
/// the next part takes, and where that follows the blocks before, it is the next block.
pub proof fn law_file_is_read_in_order(transfer: MediaTransferView, file: Seq<u8>)
    requires
        transfer.wf(),
        transfer.phase is Reading,
        file.len() == transfer.job.file_size,
    ensures
        ({
            let upload = transfer.phase->Reading_0;
            let start = transfer.job.file_size - upload.remaining;
            let size = upload.next_step()->Ok_0->size;
            let next = file.subrange(start, start + size);
            &&& filled_sizes(upload.parts, transfer.job.file_size, upload.done) matches Some(sizes)
            &&& filled_sizes(upload.parts, transfer.job.file_size, upload.done + 1) == Some(
                sizes.push(size as u64),
            )
            &&& transfer.expects(TransferEventView::Read(next))
            &&& blocks(file, sizes.push(size as u64)) == blocks(file, sizes).push(next)
        }),
{
    let upload = transfer.phase->Reading_0;
    let sizes = filled_sizes(upload.parts, transfer.job.file_size, upload.done)->0;
    let size = upload.next_step()->Ok_0->size;
    assert(sizes.push(size as u64).drop_last() == sizes);
}

/// An upload is completed only when its parts have taken every byte of the file: the blocks
/// that were cut for them, joined, are the file.
pub proof fn law_completed_upload_holds_the_file(transfer: MediaTransferView, file: Seq<u8>)
    requires
        transfer.wf(),
        transfer.phase is Completing,
        file.len() == transfer.job.file_size,
    ensures
        ({
            let upload = transfer.phase->Completing_0;
            &&& filled_sizes(upload.parts, transfer.job.file_size, upload.parts.len()) matches Some(
                sizes,
            )
            &&& total(sizes) == transfer.job.file_size
            &&& blocks(file, sizes).flatten() == file
        }),
{
    let upload = transfer.phase->Completing_0;
    let sizes = filled_sizes(upload.parts, transfer.job.file_size, upload.parts.len())->0;
    lemma_blocks_join(file, sizes);
    assert(file.take(file.len() as int) == file);
}

/// A transfer finishes only when its message is sent: nothing else is taken for success.
pub proof fn law_only_a_sent_message_finishes(
    transfer: MediaTransferView,
    event: TransferEventView,
)
    ensures
        transfer.step(event) matches Ok((_, TransferActionView::Finish)) <==> transfer.phase
            is Sending && event is MessageSent,
        transfer.step(event) == Err::<(MediaTransferView, TransferActionView), _>(
            QqError::OutOfTurn,
        ) <==> !transfer.expects(event),
{
}

/// A message about the file is sent only right after the upload was completed, and only a
/// transfer that was completing an upload goes on to a message.
pub proof fn law_message_follows_completion(
    transfer: MediaTransferView,
    event: TransferEventView,
)
    requires
        transfer.expects(event),
    ensures
        transfer.step(event) matches Ok((_, TransferActionView::SendMessage { .. }))
            <==> transfer.phase is Completing,
        transfer.step(event) matches Ok((next, TransferActionView::Complete { .. }))
            ==> next.phase is Completing && (transfer.phase is Confirming
            || transfer.phase is Preparing),
{
}

/// A part is confirmed with the size and the checksum of just the bytes that were put.
pub proof fn law_part_is_confirmed_as_put(
    transfer: MediaTransferView,
    bytes: Seq<u8>,
)
    requires
        transfer.expects(TransferEventView::Read(bytes)),
    ensures
        ({
            let upload = transfer.phase->Reading_0;
            &&& transfer.step(TransferEventView::Read(bytes)) matches Ok((putting, put))
            &&& put == TransferActionView::Put { url: next_part_url(upload), bytes }
            &&& putting.expects(TransferEventView::PutDone)
            &&& putting.step(TransferEventView::PutDone) matches Ok((confirming, confirm))
            &&& confirm == TransferActionView::ConfirmPart {
                url: user_address(transfer.job.openid, "upload_part_finish"@),
                payload: part_finish_document(
                    upload.upload_id,
                    upload.parts[upload.done as int].index,
                    bytes.len(),
                    hex(md5_sum(bytes)),
                ),
            }
        }),
{
}

/// Every part that is confirmed brings the transfer on: one more part is done, and less of the
/// file is left.
pub proof fn law_confirmed_part_is_progress(upload: MediaUploadView)
    requires
        upload.wf(),
        upload.next_step() matches Ok(UploadStepView::Part { .. }),
    ensures
        upload.part_done().done == upload.done + 1,
        upload.part_done().remaining < upload.remaining,
{
}

proof fn lemma_completion_members(
    upload_id: Seq<char>,
    media_type: MediaType,
    file_name: Seq<char>,
)
    ensures
        ({
            let document = complete_document(upload_id, media_type, file_name);
            &&& media_type == MediaType::Image ==> member(document, "file_type"@) == Some(
                JsonView::Integer(1),
            )
            &&& media_type == MediaType::File ==> member(document, "file_type"@) == Some(
                JsonView::Integer(4),
            )
            &&& member(document, "file_name"@) == Some(JsonView::Text(file_name))
            &&& member(document, "upload_id"@) == Some(JsonView::Text(upload_id))
            &&& forall|name: Seq<char>| #[trigger]
                member(document, name) is Some ==> name == "file_type"@ || name == "file_name"@
                    || name == "upload_id"@
        }),
{
    reveal_strlit("file_type");
    reveal_strlit("file_name");
    reveal_strlit("upload_id");
    assert("file_type"@[5] == 't' && "file_name"@[5] == 'n');
    assert("file_type"@[0] == 'f' && "file_name"@[0] == 'f' && "upload_id"@[0] == 'u');
    let kind = JsonView::Integer(media_type.code_spec() as int);
    let entries = seq![
        ("file_type"@, kind),
        ("file_name"@, JsonView::Text(file_name)),
        ("upload_id"@, JsonView::Text(upload_id)),
    ];
    law_members_are_found(entries);
    assert(entries[0].0 == "file_type"@ && entries[1].0 == "file_name"@ && entries[2].0
        == "upload_id"@);
}

proof fn lemma_confirmation_members(upload_id: Seq<char>, index: u32, size: u64, md5: Seq<char>)
    ensures
        ({
            let document = part_finish_document(upload_id, index, size as nat, md5);
            &&& member(document, "upload_id"@) == Some(JsonView::Text(upload_id))
            &&& member(document, "part_index"@) == Some(JsonView::Integer(index as int))
            &&& member(document, "block_size"@) matches Some(JsonView::Text(text)) && u64_value(
                text,
            ) == Some(size)
            &&& member(document, "md5"@) == Some(JsonView::Text(md5))
            &&& forall|name: Seq<char>| #[trigger]
                member(document, name) is Some ==> name == "upload_id"@ || name == "part_index"@
                    || name == "block_size"@ || name == "md5"@
        }),
{
    reveal_strlit("upload_id");
    reveal_strlit("part_index");
    reveal_strlit("block_size");
    reveal_strlit("md5");
    assert("upload_id"@.len() == 9 && "part_index"@.len() == 10 && "block_size"@.len() == 10
        && "md5"@.len() == 3);
    assert("part_index"@[0] == 'p' && "block_size"@[0] == 'b');
    law_decimal_reads_back(size);
    let entries = seq![
        ("upload_id"@, JsonView::Text(upload_id)),
        ("part_index"@, JsonView::Integer(index as int)),
        ("block_size"@, JsonView::Text(decimal(size as nat))),
        ("md5"@, JsonView::Text(md5)),
    ];
    law_members_are_found(entries);
    assert(entries[0].0 == "upload_id"@ && entries[1].0 == "part_index"@ && entries[2].0
        == "block_size"@ && entries[3].0 == "md5"@);
}

proof fn lemma_address(openid: Seq<char>, resource: Seq<char>, ending: Seq<char>)
    requires
        ending == "/"@ + resource,
    ensures
        user_address(openid, resource) == "https://api.sgroup.qq.com/v2/users/"@ + openid + ending,
{
    law_addresses_name_the_user(openid, resource);
    let base = "https://api.sgroup.qq.com/v2/users/"@ + openid;
    assert(base + "/"@ + resource =~= base + ending);
}

/// A transfer begins with the preparation of the upload, at the user's own address. What is
/// posted is of the kind of the job, 1 for an image and 4 for a file, and tells the size, the
/// name and the checksums of the file.
pub proof fn law_preparation_is_that_of_the_job(
    job: MediaJobView,
    md5: Seq<char>,
    sha1: Seq<char>,
    md5_10m: Seq<char>,
)
    ensures
        MediaTransferView::start(job, md5, sha1, md5_10m).0.job == job,
        forall|event: TransferEventView| #[trigger]
            MediaTransferView::start(job, md5, sha1, md5_10m).0.expects(event) <==> event
                is Prepared,
        MediaTransferView::start(job, md5, sha1, md5_10m).1 matches TransferActionView::Prepare {
            url,
            payload,
        } && {
            &&& url == "https://api.sgroup.qq.com/v2/users/"@ + job.openid + "/upload_prepare"@
            &&& job.media_type == MediaType::Image ==> member(payload, "file_type"@) == Some(
                JsonView::Integer(1),
            )
            &&& job.media_type == MediaType::File ==> member(payload, "file_type"@) == Some(
                JsonView::Integer(4),
            )
            &&& member(payload, "file_size"@) matches Some(JsonView::Text(size)) && u64_value(size)
                == Some(job.file_size)
            &&& member(payload, "file_name"@) == Some(JsonView::Text(job.file_name))
            &&& member(payload, "md5"@) == Some(JsonView::Text(md5))
            &&& member(payload, "sha1"@) == Some(JsonView::Text(sha1))
            &&& member(payload, "md5_10m"@) == Some(JsonView::Text(md5_10m))
        },
{
    reveal_strlit("/");
    reveal_strlit("upload_prepare");
    reveal_strlit("/upload_prepare");
    assert("/"@ + "upload_prepare"@ =~= "/upload_prepare"@);
    lemma_address(job.openid, "upload_prepare"@, "/upload_prepare"@);
    law_preparation_describes_the_file(
        job.media_type,
        job.file_size,
        job.file_name,
        md5,
        sha1,
        md5_10m,
    );
}

/// An upload is completed at the user's own address, as of the kind of the job, 1 for an image
/// and 4 for a file, under the name of the job and for just the upload that was prepared.
pub proof fn law_completion_is_that_of_the_job(
    transfer: MediaTransferView,
    event: TransferEventView,
)
    ensures
        transfer.step(event) matches Ok((next, TransferActionView::Complete { url, payload })) ==> {
            &&& url == "https://api.sgroup.qq.com/v2/users/"@ + transfer.job.openid + "/files"@
            &&& transfer.job.media_type == MediaType::Image ==> member(payload, "file_type"@)
                == Some(JsonView::Integer(1))
            &&& transfer.job.media_type == MediaType::File ==> member(payload, "file_type"@) == Some(
                JsonView::Integer(4),
            )
            &&& member(payload, "file_name"@) == Some(JsonView::Text(transfer.job.file_name))
            &&& next.upload() matches Some(upload) && member(payload, "upload_id"@) == Some(
                JsonView::Text(upload.upload_id),
            )
            &&& forall|name: Seq<char>| #[trigger]
                member(payload, name) is Some ==> name == "file_type"@ || name == "file_name"@
                    || name == "upload_id"@
        },
{
    reveal_strlit("/");
    reveal_strlit("files");
    reveal_strlit("/files");
    assert("/"@ + "files"@ =~= "/files"@);
    lemma_address(transfer.job.openid, "files"@, "/files"@);
    if let Ok((next, TransferActionView::Complete { .. })) = transfer.step(event) {
        lemma_completion_members(
            next.upload()->0.upload_id,
            transfer.job.media_type,
            transfer.job.file_name,
        );
    }
}

/// An image and a file are never completed with the same document.
pub proof fn law_images_and_files_are_completed_apart(
    image: MediaTransferView,
    image_event: TransferEventView,
    file: MediaTransferView,
    file_event: TransferEventView,
)
    requires
        image.job.media_type == MediaType::Image,
        file.job.media_type == MediaType::File,
        image.step(image_event) matches Ok((_, TransferActionView::Complete { .. })),
        file.step(file_event) matches Ok((_, TransferActionView::Complete { .. })),
    ensures
        image.step(image_event)->Ok_0.1 != file.step(file_event)->Ok_0.1,
{
    law_completion_is_that_of_the_job(image, image_event);
    law_completion_is_that_of_the_job(file, file_event);
}

/// A part is confirmed at the user's own address, for the upload that was prepared, with the
/// index of the part, the number of bytes that were put and their checksum.
pub proof fn law_confirmation_describes_the_part(transfer: MediaTransferView, bytes: Seq<u8>)
    requires
        transfer.expects(TransferEventView::Read(bytes)),
    ensures
        transfer.step(TransferEventView::Read(bytes)) matches Ok((putting, put)) && putting.step(
            TransferEventView::PutDone,
        ) matches Ok((_, TransferActionView::ConfirmPart { url, payload })) && {
            let upload = transfer.phase->Reading_0;
            let part = upload.parts[upload.done as int];
            &&& put == TransferActionView::Put { url: part.presigned_url, bytes }
            &&& url == "https://api.sgroup.qq.com/v2/users/"@ + transfer.job.openid
                + "/upload_part_finish"@
            &&& member(payload, "upload_id"@) == Some(JsonView::Text(upload.upload_id))
            &&& member(payload, "part_index"@) == Some(JsonView::Integer(part.index as int))
            &&& member(payload, "block_size"@) matches Some(JsonView::Text(size)) && u64_value(size)
                == Some(bytes.len() as u64)
            &&& member(payload, "md5"@) == Some(JsonView::Text(hex(md5_sum(bytes))))
        },
{
    reveal_strlit("/");
    reveal_strlit("upload_part_finish");
    reveal_strlit("/upload_part_finish");
    assert("/"@ + "upload_part_finish"@ =~= "/upload_part_finish"@);
    lemma_address(transfer.job.openid, "upload_part_finish"@, "/upload_part_finish"@);
    let upload = transfer.phase->Reading_0;
    lemma_confirmation_members(
        upload.upload_id,
        upload.parts[upload.done as int].index,
        bytes.len() as u64,
        hex(md5_sum(bytes)),
    );
}

/// The message that ends a transfer goes to the user of the job and shows the file that QQ
/// described when the upload was completed.
pub proof fn law_message_shows_the_completed_file(transfer: MediaTransferView, file_info: Seq<char>)
    requires
        transfer.phase is Completing,
    ensures
        transfer.step(TransferEventView::Completed(file_info)) matches Ok(
            (sending, TransferActionView::SendMessage { url, payload }),
        ) && {
            &&& url == "https://api.sgroup.qq.com/v2/users/"@ + transfer.job.openid + "/messages"@
            &&& member(payload, "msg_type"@) == Some(JsonView::Integer(7))
            &&& member(payload, "media"@) matches Some(media) && member(media, "file_info"@)
                == Some(JsonView::Text(file_info))
            &&& sending.step(TransferEventView::MessageSent) matches Ok(
                (_, TransferActionView::Finish),
            )
        },
{
    reveal_strlit("/");
    reveal_strlit("messages");
    reveal_strlit("/messages");
    assert("/"@ + "messages"@ =~= "/messages"@);
    lemma_address(transfer.job.openid, "messages"@, "/messages"@);
    law_media_message_shows_its_file(file_info);
}

/// A transfer keeps its job from beginning to end, and its upload once it is prepared: the
/// upload is the one that was answered, with all its parts, of a file of the job's size.
pub proof fn law_transfer_keeps_its_job_and_upload(
    transfer: MediaTransferView,
    event: TransferEventView,
)
    requires
        transfer.wf(),
    ensures
        transfer.step(event) matches Ok((next, _)) ==> {
            &&& next.job == transfer.job
            &&& transfer.upload() is Some && next.upload() is Some ==> {
                &&& next.upload()->0.upload_id == transfer.upload()->0.upload_id
                &&& next.upload()->0.parts == transfer.upload()->0.parts
                &&& next.upload()->0.file_size == transfer.job.file_size
            }
            &&& event matches TransferEventView::Prepared { upload_id, parts } ==> {
                &&& next.upload() matches Some(upload)
                &&& upload.upload_id == upload_id
                &&& upload.parts == parts
                &&& upload.file_size == transfer.job.file_size
                &&& upload.remaining == transfer.job.file_size
                &&& upload.done == 0
            }
        },
{
}

/// Whether an event answers an action.
pub open spec fn answers(action: TransferActionView, event: TransferEventView) -> bool {
    match action {
        TransferActionView::Prepare { .. } => event is Prepared,
        TransferActionView::Read { size } => event matches TransferEventView::Read(bytes)
            && bytes.len() == size,
        TransferActionView::Put { .. } => event is PutDone,
        TransferActionView::ConfirmPart { .. } => event is PartConfirmed,
        TransferActionView::Complete { .. } => event is Completed,
        TransferActionView::SendMessage { .. } => event is MessageSent,
        TransferActionView::Finish => false,
    }
}

/// After an action a transfer waits for the answer to just that action.
pub proof fn law_each_action_waits_for_its_answer(
    transfer: MediaTransferView,
    event: TransferEventView,
    answer: TransferEventView,
)
    ensures
        transfer.step(event) matches Ok((next, action)) ==> (next.expects(answer) <==> answers(
            action,
            answer,
        )),
{
}

/// Each part takes as much as its block holds or as is left of the file, whichever is less; it
/// goes to its own address. A part that says no number, an empty block and a part beyond the end
/// of the file are refused.
pub proof fn law_next_part_takes_what_fits(upload: MediaUploadView)
    requires
        upload.done < upload.parts.len(),
    ensures
        ({
            let part = upload.parts[upload.done as int];
            match (u64_value(part.block_size), upload.next_step()) {
                (None, step) => step == Err::<UploadStepView, _>(QqError::InvalidBlockSize),
                (Some(block), Ok(UploadStepView::Part { index, presigned_url, size })) => {
                    &&& block > 0 && upload.remaining > 0
                    &&& size <= block && size <= upload.remaining
                    &&& size == block || size == upload.remaining
                    &&& index == part.index && presigned_url == part.presigned_url
                },
                (Some(_), Ok(UploadStepView::Complete)) => false,
                (Some(block), Err(error)) => if block == 0 || upload.remaining == 0 {
                    error == QqError::InvalidPart
                } else {
                    error == QqError::PartTooLarge && block > usize::MAX && upload.remaining
                        > usize::MAX
                },
            }
        }),
{
}

/// Once there is no part left, the upload is complete where nothing of the file is left, and
/// else the parts were too small; without any part it does not begin.
pub proof fn law_end_of_parts_is_the_end_of_the_file(
    upload: MediaUploadView,
    transfer: MediaTransferView,
    upload_id: Seq<char>,
)
    requires
        upload.done == upload.parts.len(),
        transfer.phase is Preparing,
    ensures
        upload.remaining == 0 ==> upload.next_step() == Ok::<_, QqError>(UploadStepView::Complete),
        upload.remaining > 0 ==> upload.next_step() == Err::<UploadStepView, _>(
            QqError::PartsTooSmall,
        ),
        transfer.step(TransferEventView::Prepared { upload_id, parts: Seq::empty() }) == Err::<
            (MediaTransferView, TransferActionView),
            _,
        >(QqError::NoParts),
{
}

/// A part that is confirmed is followed by the next one, with just as much less of the file left
/// as the part took.
pub proof fn law_confirmed_part_is_followed_by_the_next(transfer: MediaTransferView)
    requires
        transfer.wf(),
        transfer.phase is Confirming,
    ensures
        transfer.step(TransferEventView::PartConfirmed) matches Ok((next, action)) ==> {
            let before = transfer.phase->Confirming_0;
            &&& next.upload() matches Some(after)
            &&& after.done == before.done + 1
            &&& after.remaining + before.next_step()->Ok_0->size == before.remaining
            &&& action is Read || action is Complete
        },
{
}

/// The parts of an upload are shown as they are, each in its place, and so is a job.
pub proof fn law_parts_and_jobs_show_what_they_hold(parts: Seq<UploadPart>, i: int, job: MediaJob)
    ensures
        part_views(parts).len() == parts.len(),
        0 <= i < parts.len() ==> {
            &&& part_views(parts)[i].index == parts[i].index
            &&& part_views(parts)[i].presigned_url == parts[i].presigned_url@
            &&& part_views(parts)[i].block_size == parts[i].block_size@
        },
        job@.openid == job.openid@ && job@.file_name == job.file_name@ && job@.media_type
            == job.media_type && job@.file_size == job.file_size,
{
}

/// What came of an action is shown with all that came with it.
pub proof fn law_events_show_what_they_hold(
    prepared: UploadPrepareResponse,
    bytes: Vec<u8>,
    file_info: String,
)
    ensures
        TransferEvent::Prepared(prepared)@ == (TransferEventView::Prepared {
            upload_id: prepared.upload_id@,
            parts: part_views(prepared.parts@),
        }),
        TransferEvent::Read(bytes)@ == TransferEventView::Read(bytes@),
        TransferEvent::PutDone@ is PutDone,
        TransferEvent::PartConfirmed@ is PartConfirmed,
        TransferEvent::Completed(file_info)@ == TransferEventView::Completed(file_info@),
        TransferEvent::MessageSent@ is MessageSent,
{
}

/// What is to be done is shown with its address and what goes there.
pub proof fn law_actions_show_what_they_hold(
    url: String,
    payload: Payload,
    bytes: Vec<u8>,
    size: usize,
)
    ensures
        (TransferAction::Prepare { url, payload })@ == (TransferActionView::Prepare {
            url: url@,
            payload: payload@,
        }),
        (TransferAction::Read { size })@ == (TransferActionView::Read { size: size as nat }),
        (TransferAction::Put { url, bytes })@ == (TransferActionView::Put {
            url: url@,
            bytes: bytes@,
        }),
        (TransferAction::ConfirmPart { url, payload })@ == (TransferActionView::ConfirmPart {
            url: url@,
            payload: payload@,
        }),
        (TransferAction::Complete { url, payload })@ == (TransferActionView::Complete {
            url: url@,
            payload: payload@,
        }),
        (TransferAction::SendMessage { url, payload })@ == (TransferActionView::SendMessage {
            url: url@,
            payload: payload@,
        }),
        TransferAction::Finish@ is Finish,
{
}

/// An upload that was prepared with a part that can be filled begins: the first part is read, as
/// much as its block holds or as the file has.
pub proof fn law_prepared_upload_begins_with_its_first_part(
    transfer: MediaTransferView,
    upload_id: Seq<char>,
    parts: Seq<UploadPartView>,
    block: u64,
)
    requires
        transfer.phase is Preparing,
        parts.len() > 0,
        u64_value(parts[0].block_size) == Some(block),
        0 < block <= usize::MAX,
        transfer.job.file_size > 0,
    ensures
        transfer.step(TransferEventView::Prepared { upload_id, parts }) matches Ok(
            (_, TransferActionView::Read { size }),
        ) && size <= block && size <= transfer.job.file_size && (size == block || size
            == transfer.job.file_size),
{
}

/// After a part is confirmed the transfer goes on exactly where the upload can: a next part that
/// cannot be filled, or the want of one, ends it with the reason.
pub proof fn law_transfer_goes_on_where_the_upload_can(transfer: MediaTransferView)
    requires
        transfer.phase is Confirming,
    ensures
        ({
            let outcome = transfer.step(TransferEventView::PartConfirmed);
            match (transfer.phase->Confirming_0.part_done().next_step(), outcome) {
                (Ok(UploadStepView::Part { size, .. }), Ok((_, action))) => action
                    == TransferActionView::Read { size: size as nat },
                (Ok(UploadStepView::Complete), Ok((_, action))) => action is Complete,
                (Err(reason), Err(error)) => error == reason,
                (_, _) => false,
            }
        }),
{
}

} // verus!
