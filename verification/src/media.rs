//! Uploaded media: their kinds, their checksums and the files that hold them for a while.
use crate::digest::{
    md5_finalize, md5_input, md5_new, md5_sum, md5_update, sha1_finalize, sha1_input, sha1_new,
    sha1_sum, sha1_update,
};
use crate::text::{
    decimal, hex, law_decimal_is_digits, law_decimal_is_injective, law_hex_length,
    optional_string, to_hex, u64_to_decimal,
};
use vstd::prelude::*;

verus! {

/// How QQ shows a medium.
#[derive(Clone, Copy, Debug, PartialEq, Eq, Structural)]
pub enum MediaType {
    Image,
    File,
}

impl MediaType {
    /// The number that the QQ interface has for the kind.
    pub open spec fn code_spec(self) -> u8 {
        match self {
            MediaType::Image => 1,
            MediaType::File => 4,
        }
    }

    /// The word that requests and responses have for the kind.
    pub open spec fn label_spec(self) -> Seq<char> {
        match self {
            MediaType::Image => "image"@,
            MediaType::File => "file"@,
        }
    }

    /// The number that the QQ interface has for the kind.
    pub fn code(self) -> (r: u8)
        ensures
            r == self.code_spec(),
    {
        match self {
            MediaType::Image => 1,
            MediaType::File => 4,
        }
    }

    /// The word that requests and responses have for the kind.
    pub fn label(self) -> (r: &'static str)
        ensures
            r@ == self.label_spec(),
    {
        match self {
            MediaType::Image => "image",
            MediaType::File => "file",
        }
    }
}

/// The model of an [`UploadedMedia`].
pub struct UploadedMediaView {
    pub file_name: Seq<char>,
    pub content_type: Option<Seq<char>>,
    pub size: u64,
}

/// A file that was received whole.
#[derive(Debug)]
pub struct UploadedMedia {
    pub file_name: String,
    pub content_type: Option<String>,
    pub size: u64,
}

impl UploadedMedia {
    /// The model of the file.
    pub open spec fn view(&self) -> UploadedMediaView {
        UploadedMediaView {
            file_name: self.file_name@,
            content_type: optional_string(self.content_type),
            size: self.size,
        }
    }
}

/// How many leading bytes the third checksum covers.
pub const FIRST_10_MB: usize = 10_002_432;

/// The leading bytes that the third checksum covers.
pub open spec fn leading_bytes(bytes: Seq<u8>) -> Seq<u8> {
    if bytes.len() <= FIRST_10_MB {
        bytes
    } else {
        bytes.take(FIRST_10_MB as int)
    }
}

/// The checksums that QQ asks for before an upload, in hexadecimal.
pub open spec fn file_checksums(bytes: Seq<u8>) -> (Seq<char>, Seq<char>, Seq<char>) {
    (hex(md5_sum(bytes)), hex(sha1_sum(bytes)), hex(md5_sum(leading_bytes(bytes))))
}

/// The checksums that QQ asks for before an upload, computed while a file is read piece by
/// piece.
pub struct FileDigests {
    full_md5: md5::Md5,
    full_sha1: sha1::Sha1,
    first_10_mb_md5: md5::Md5,
    first_10_mb_size: usize,
}

impl FileDigests {
    /// The bytes read so far.
    pub closed spec fn view(&self) -> Seq<u8> {
        md5_input(self.full_md5)
    }

    /// The three hashers have seen the same file.
    pub closed spec fn wf(&self) -> bool {
        &&& sha1_input(self.full_sha1) == md5_input(self.full_md5)
        &&& md5_input(self.first_10_mb_md5) == leading_bytes(md5_input(self.full_md5))
        &&& self.first_10_mb_size == leading_bytes(md5_input(self.full_md5)).len()
    }

    /// Nothing read yet.
    pub fn new() -> (r: FileDigests)
        ensures
            r.wf(),
            r@ == Seq::<u8>::empty(),
    {
        FileDigests {
            full_md5: md5_new(),
            full_sha1: sha1_new(),
            first_10_mb_md5: md5_new(),
            first_10_mb_size: 0,
        }
    }

    /// One more piece of the file.
    pub fn update(&mut self, bytes: &[u8])
        requires
            old(self).wf(),
        ensures
            final(self).wf(),
            final(self)@ == old(self)@ + bytes@,
    {
        let ghost before = md5_input(self.full_md5);
        md5_update(&mut self.full_md5, bytes);
        sha1_update(&mut self.full_sha1, bytes);
        if self.first_10_mb_size < FIRST_10_MB {
            let room: usize = FIRST_10_MB - self.first_10_mb_size;
            let length: usize = if room < bytes.len() { room } else { bytes.len() };
            let (leading, _rest) = bytes.split_at(length);
            md5_update(&mut self.first_10_mb_md5, leading);
            self.first_10_mb_size = self.first_10_mb_size + length;
            assert(leading_bytes(before) == before);
        }
        assert(md5_input(self.first_10_mb_md5) =~= leading_bytes(before + bytes@));
    }

    /// The checksums of the file in hexadecimal: MD5 of the whole, SHA-1 of the whole, MD5 of
    /// its beginning. MD5 takes 32 digits and SHA-1 takes 40.
    pub fn finish(self) -> (r: (String, String, String))
        requires
            self.wf(),
        ensures
            (r.0@, r.1@, r.2@) == file_checksums(self@),
            r.0@ == hex(md5_sum(self@)),
            r.1@ == hex(sha1_sum(self@)),
            r.2@ == hex(md5_sum(leading_bytes(self@))),
            r.0@.len() == 32,
            r.1@.len() == 40,
            r.2@.len() == 32,
    {
        let md5 = md5_finalize(self.full_md5);
        let sha1 = sha1_finalize(self.full_sha1);
        let md5_10m = md5_finalize(self.first_10_mb_md5);
        proof {
            law_hex_length(md5@);
            law_hex_length(sha1@);
            law_hex_length(md5_10m@);
        }
        (to_hex(&md5), to_hex(&sha1), to_hex(&md5_10m))
    }
}

/// How often a new temporary file is tried.
pub const TEMPORARY_FILE_ATTEMPTS: u8 = 16;

/// The name of the temporary file that a process opens for an upload.
pub open spec fn temporary_file_name_spec(process: nat, sequence: nat) -> Seq<char> {
    "qqbot-upload-"@ + decimal(process) + "-"@ + decimal(sequence)
}

/// The name of the temporary file that a process opens for an upload.
pub fn temporary_file_name(process: u32, sequence: u64) -> (r: String)
    ensures
        r@ == temporary_file_name_spec(process as nat, sequence as nat),
{
    let mut name = "qqbot-upload-".to_owned();
    name.append(u64_to_decimal(process as u64).as_str());
    name.append("-");
    name.append(u64_to_decimal(sequence).as_str());
    name
}

/// What came of an attempt to create a temporary file.
#[derive(Clone, Copy, Debug, PartialEq, Eq, Structural)]
pub enum CreateOutcome {
    Created,
    AlreadyExists,
    Failed,
}

/// What is to be done after an attempt to create a temporary file.
#[derive(Clone, Copy, Debug, PartialEq, Eq, Structural)]
pub enum CreateStep {
    /// The file is there.
    Use,
    /// Try the next name.
    Retry,
    /// Give up: the file cannot be created.
    GiveUp,
    /// Give up: every name that was tried was taken.
    NoUniqueName,
}

/// What follows an attempt to create a temporary file, after so many others.
pub open spec fn create_step(attempts: nat, outcome: CreateOutcome) -> CreateStep {
    match outcome {
        CreateOutcome::Created => CreateStep::Use,
        CreateOutcome::Failed => CreateStep::GiveUp,
        CreateOutcome::AlreadyExists => if attempts + 1 < TEMPORARY_FILE_ATTEMPTS {
            CreateStep::Retry
        } else {
            CreateStep::NoUniqueName
        },
    }
}

/// The attempts to create one temporary file.
#[derive(Debug)]
pub struct TemporaryFileAttempts {
    attempts: u8,
}

impl TemporaryFileAttempts {
    /// How many attempts have ended.
    pub closed spec fn view(&self) -> nat {
        self.attempts as nat
    }

    /// No attempt yet.
    pub fn new() -> (r: TemporaryFileAttempts)
        ensures
            r@ == 0,
    {
        TemporaryFileAttempts { attempts: 0 }
    }

    /// Decides after an attempt. A name that is taken is passed over, as long as there are
    /// attempts left; any other failure ends the matter.
    pub fn after_attempt(&mut self, outcome: CreateOutcome) -> (r: CreateStep)
        requires
            old(self)@ < TEMPORARY_FILE_ATTEMPTS,
        ensures
            final(self)@ == old(self)@ + 1,
            r == create_step(old(self)@, outcome),
    {
        self.attempts = self.attempts + 1;
        match outcome {
            CreateOutcome::Created => CreateStep::Use,
            CreateOutcome::Failed => CreateStep::GiveUp,
            CreateOutcome::AlreadyExists => if self.attempts < TEMPORARY_FILE_ATTEMPTS {
                CreateStep::Retry
            } else {
                CreateStep::NoUniqueName
            },
        }
    }
}

/// For a file that is not longer than the third checksum covers, that is the checksum of the
/// whole.
pub proof fn law_short_file_has_one_md5(bytes: Seq<u8>)
    requires
        bytes.len() <= FIRST_10_MB,
    ensures
        md5_sum(leading_bytes(bytes)) == md5_sum(bytes),
{
}

/// A temporary file is used only where it was created: one that was there already is never
/// used, and after the last attempt none is tried again.
pub proof fn law_only_a_created_file_is_used(attempts: nat, outcome: CreateOutcome)
    ensures
        create_step(attempts, outcome) == CreateStep::Use <==> outcome == CreateOutcome::Created,
        create_step(attempts, outcome) == CreateStep::Retry <==> outcome
            == CreateOutcome::AlreadyExists && attempts < 15,
        create_step(attempts, outcome) == CreateStep::GiveUp <==> outcome == CreateOutcome::Failed,
{
}

/// Two temporary files have the same name only where the process and the number are the same.
pub proof fn law_temporary_file_names_differ(
    process: nat,
    sequence: nat,
    other_process: nat,
    other_sequence: nat,
)
    requires
        temporary_file_name_spec(process, sequence) == temporary_file_name_spec(
            other_process,
            other_sequence,
        ),
    ensures
        process == other_process,
        sequence == other_sequence,
{
    reveal_strlit("qqbot-upload-");
    reveal_strlit("-");
    let prefix = "qqbot-upload-"@;
    let (p, s) = (decimal(process), decimal(sequence));
    let (q, t) = (decimal(other_process), decimal(other_sequence));
    law_decimal_is_digits(process);
    law_decimal_is_digits(sequence);
    law_decimal_is_digits(other_process);
    law_decimal_is_digits(other_sequence);
    let name = prefix + p + "-"@ + s;
    let other = prefix + q + "-"@ + t;
    assert(name[prefix.len() + p.len() as int] == '-');
    assert(other[prefix.len() + q.len() as int] == '-');
    if p.len() < q.len() {
        assert(other[prefix.len() + p.len() as int] == q[p.len() as int]);
    } else if q.len() < p.len() {
        assert(name[prefix.len() + q.len() as int] == p[q.len() as int]);
    }
    assert(p =~= q) by {
        assert forall|i: int| 0 <= i < p.len() implies p[i] == q[i] by {
            assert(name[prefix.len() + i] == p[i]);
            assert(other[prefix.len() + i] == q[i]);
        }
    }
    assert(name.len() == other.len());
    assert(s.len() == t.len());
    assert(s =~= t) by {
        assert forall|i: int| 0 <= i < s.len() implies s[i] == t[i] by {
            assert(name[prefix.len() + p.len() + 1 + i] == s[i]);
            assert(other[prefix.len() + p.len() + 1 + i] == t[i]);
        }
    }
    law_decimal_is_injective(process, other_process);
    law_decimal_is_injective(sequence, other_sequence);
}

/// QQ's number for an image is 1 and its word is image; for a file they are 4 and file. So no
/// image passes for a file.
pub proof fn law_kinds_have_their_numbers(media_type: MediaType)
    ensures
        media_type == MediaType::Image ==> media_type.code_spec() == 1 && media_type.label_spec()
            == "image"@,
        media_type == MediaType::File ==> media_type.code_spec() == 4 && media_type.label_spec()
            == "file"@,
        MediaType::Image.code_spec() != MediaType::File.code_spec(),
{
}

/// The checksums of a file are its MD5, its SHA-1 and the MD5 of its beginning: of the first
/// 10,002,432 bytes where it has so many, else of the whole.
pub proof fn law_checksums_are_those_of_the_file(head: Seq<u8>, rest: Seq<u8>)
    requires
        head.len() == 10_002_432 || (head.len() < 10_002_432 && rest.len() == 0),
    ensures
        file_checksums(head + rest).0 == hex(md5_sum(head + rest)),
        file_checksums(head + rest).1 == hex(sha1_sum(head + rest)),
        file_checksums(head + rest).2 == hex(md5_sum(head)),
{
    assert(leading_bytes(head + rest) =~= head);
}

/// An uploaded file is shown with its name, its content type and its size.
pub proof fn law_uploaded_file_shows_what_it_holds(uploaded: UploadedMedia)
    ensures
        uploaded@.file_name == uploaded.file_name@,
        uploaded@.content_type is Some <==> uploaded.content_type is Some,
        uploaded.content_type is Some ==> uploaded@.content_type == Some(uploaded.content_type->0@),
        uploaded@.size == uploaded.size,
{
}

/// The name of a temporary file tells the process and the number, each in decimal, after the
/// words that mark it as an upload.
pub proof fn law_temporary_file_name_tells_process_and_number(process: u32, sequence: u64)
    ensures
        ({
            let name = temporary_file_name_spec(process as nat, sequence as nat);
            let first = decimal(process as nat);
            let second = decimal(sequence as nat);
            &&& name.len() == 13 + first.len() + 1 + second.len()
            &&& name.take(13) == "qqbot-upload-"@
            &&& name.subrange(13, 13 + first.len() as int) == first
            &&& name[13 + first.len() as int] == '-'
            &&& name.skip(14 + first.len() as int) == second
        }),
{
    reveal_strlit("qqbot-upload-");
    reveal_strlit("-");
    let name = temporary_file_name_spec(process as nat, sequence as nat);
    let first = decimal(process as nat);
    assert("qqbot-upload-"@.len() == 13 && "-"@.len() == 1);
    assert(name.take(13) =~= "qqbot-upload-"@);
    assert(name.subrange(13, 13 + first.len() as int) =~= first);
    assert(name.skip(14 + first.len() as int) =~= decimal(sequence as nat));
}

} // verus!
