//! Uploading attachments.
//!
//! An upload goes through the types of this module in turn: an
//! `UploadRequest` whose channel exists and whose file may be taken becomes a
//! `CheckedUpload`; with the file's bytes, a `DecodedUpload`, directly or once
//! the file was decoded outside; a picture that is not too high, or that was
//! made smaller, a `FittedUpload`; with a clean name, a `CleanUpload`; and with
//! an id, a `NamedUpload`, which is stored.
use crate::filenames;
use crate::filenames::{cleaned, extension, is_file_name_char, split_name, stem};
use crate::ids::{is_server_id, IdGenerator};
use crate::images;
use crate::images::{decoded_size, format_of, is_plain_picture, is_resized, size_of};
use crate::models;
use crate::models::{Attachment, AttachmentView};
use crate::routes::{Refusal, RefusalView, Status, INTERNAL_ERROR};
use crate::text::{
    append_signed, append_unsigned, decimal, digits, is_digit, law_decimal_says_the_number,
    lemma_decimal, lemma_decimal_injective, lemma_same_up_to_a_mark,
};
use vstd::prelude::*;
use vstd::string::*;

verus! {

/// The size of the largest file that is taken, in bytes.
pub const MAX_FILE_SIZE: usize = 1024 * 1024 * 5;

/// The height above which a picture is made smaller.
pub const MAX_HEIGHT: u32 = 512;

/// A file that a client wants to attach in a channel.
#[derive(Debug)]
pub struct UploadRequest {
    pub channel_id: i64,
    /// The number of bytes of the file
    pub size: usize,
    /// The type that the client gave
    pub content_type: Option<String>,
    /// The name that the client gave
    pub file_name: Option<String>,
}

/// Whether files of a type are taken: only some kinds of images are.
pub open spec fn is_valid_content_type(content_type: Seq<char>) -> bool {
    ||| content_type == "image/png"@
    ||| content_type == "image/jpeg"@
    ||| content_type == "image/gif"@
    ||| content_type == "image/webp"@
}

/// Whether files of a type are taken.
pub fn valid_content_type(content_type: &String) -> (res: bool)
    ensures
        res == is_valid_content_type(content_type@),
{
    *content_type == "image/png".to_owned() || *content_type == "image/jpeg".to_owned()
        || *content_type == "image/gif".to_owned() || *content_type == "image/webp".to_owned()
}

/// What is said of a file that is too large.
pub open spec fn too_large() -> Seq<char> {
    "The uploaded file is too large. Maximum size is "@ + decimal(MAX_FILE_SIZE as int)
        + " bytes."@
}

/// Why a file is not taken, if it is not, in a channel that exists or not.
pub open spec fn upload_refusal(request: UploadRequest, channel_exists: bool) -> Option<
    RefusalView,
> {
    if !channel_exists {
        Some(RefusalView { status: Status::NotFound, body: None })
    } else if request.size == 0 {
        Some(RefusalView { status: Status::BadRequest, body: None })
    } else if request.size > MAX_FILE_SIZE {
        Some(Refusal::of(Status::BadRequest, too_large()))
    } else {
        match request.content_type {
            Some(content_type) => if is_valid_content_type(content_type@) {
                None
            } else {
                Some(Refusal::of(Status::BadRequest, INTERNAL_ERROR@))
            },
            None => Some(Refusal::of(Status::BadRequest, INTERNAL_ERROR@)),
        }
    }
}

/// A file that may be taken, before it is read.
#[derive(Debug)]
pub struct CheckedUpload {
    pub channel_id: i64,
    pub size: usize,
    pub content_type: String,
    pub file_name: Option<String>,
}

impl UploadRequest {
    /// Checks the request, given the channels with its id, where they could be
    /// fetched. The channel must exist, and the file must be neither empty nor
    /// too large nor of a type that is not taken.
    pub fn check(self, channels: Option<Vec<models::Channel>>) -> (res: Result<
        CheckedUpload,
        Refusal,
    >)
        ensures
            ({
                let refusal = upload_refusal(self, channels is Some && channels->0@.len() > 0);
                &&& res is Ok <==> refusal is None
                &&& res matches Err(r) ==> Some(r@) == refusal
                &&& res matches Ok(upload) ==> {
                    &&& upload.channel_id == self.channel_id
                    &&& upload.size == self.size
                    &&& Some(upload.content_type) == self.content_type
                    &&& upload.file_name == self.file_name
                }
            }),
    {
        match channels {
            Some(list) => {
                if list.len() == 0 {
                    return Err(Refusal::bare(Status::NotFound));
                }
            },
            None => return Err(Refusal::bare(Status::NotFound)),
        }
        if self.size == 0 {
            return Err(Refusal::bare(Status::BadRequest));
        }
        if self.size > MAX_FILE_SIZE {
            let mut body = "The uploaded file is too large. Maximum size is ".to_owned();
            append_unsigned(&mut body, MAX_FILE_SIZE as u64);
            body.append(" bytes.");
            return Err(Refusal { status: Status::BadRequest, body: Some(body) });
        }
        let content_type = match self.content_type {
            Some(content_type) => content_type,
            None => return Err(Refusal::with_body(Status::BadRequest, INTERNAL_ERROR)),
        };
        if !valid_content_type(&content_type) {
            return Err(Refusal::with_body(Status::BadRequest, INTERNAL_ERROR));
        }
        Ok(
            CheckedUpload {
                channel_id: self.channel_id,
                size: self.size,
                content_type,
                file_name: self.file_name,
            },
        )
    }
}

/// A file that was read and is a picture.
pub struct DecodedUpload {
    pub upload: CheckedUpload,
    pub format: image::ImageFormat,
    pub picture: image::DynamicImage,
}

/// What to do next once a file was read.
pub enum FileStep {
    /// It is a picture
    Decoded(DecodedUpload),
    /// It begins as a picture of this format does. Decode it, and go on with
    /// what came of it: whether the decoder ends in a panic cannot be told from
    /// the bytes
    Decode { upload: CheckedUpload, format: image::ImageFormat, bytes: Vec<u8> },
}

impl CheckedUpload {
    /// Takes the bytes of the file, where they could be read. Bytes that do not
    /// begin as a picture does are refused, and so are those that cannot be
    /// decoded; those that may make the decoder panic are left to be decoded
    /// outside.
    pub fn file_read(self, bytes: Option<Vec<u8>>) -> (res: Result<FileStep, Refusal>)
        ensures
            match bytes {
                Some(file) => if format_of(file@) is None {
                    res is Err
                } else if !is_plain_picture(file@) {
                    &&& res matches Ok(FileStep::Decode { upload, format, bytes: left })
                    &&& upload == self
                    &&& left == file
                    &&& Some(format) == format_of(file@)
                } else if decoded_size(file@) is Some {
                    &&& res matches Ok(FileStep::Decoded(decoded))
                    &&& decoded.upload == self
                    &&& Some(decoded.format) == format_of(file@)
                    &&& Some(size_of(decoded.picture)) == decoded_size(file@)
                } else {
                    res is Err
                },
                None => res is Err,
            },
            res matches Err(refusal) ==> refusal@ == Refusal::of(
                Status::BadRequest,
                INTERNAL_ERROR@,
            ),
    {
        let bytes = match bytes {
            Some(bytes) => bytes,
            None => return Err(Refusal::with_body(Status::BadRequest, INTERNAL_ERROR)),
        };
        let format = match images::guess_format(bytes.as_slice()) {
            Ok(format) => format,
            Err(_) => return Err(Refusal::with_body(Status::BadRequest, INTERNAL_ERROR)),
        };
        if !images::plain_picture(bytes.as_slice()) {
            return Ok(FileStep::Decode { upload: self, format, bytes });
        }
        match images::load_from_memory(bytes.as_slice()) {
            Ok(picture) => Ok(FileStep::Decoded(DecodedUpload { upload: self, format, picture })),
            Err(_) => Err(Refusal::with_body(Status::BadRequest, INTERNAL_ERROR)),
        }
    }
}

impl FileStep {
    /// Goes on with the picture that a file was decoded to, where it was left
    /// to be decoded. A file that could not be decoded is refused.
    pub fn decoded(self, picture: Option<image::DynamicImage>) -> (res: Result<
        DecodedUpload,
        Refusal,
    >)
        ensures
            match self {
                FileStep::Decoded(decoded) => res == Ok::<DecodedUpload, Refusal>(decoded),
                FileStep::Decode { upload, format, bytes } => match picture {
                    Some(picture) => res == Ok::<DecodedUpload, Refusal>(
                        (DecodedUpload { upload, format, picture }),
                    ),
                    None => res is Err,
                },
            },
            res matches Err(refusal) ==> refusal@ == Refusal::of(
                Status::BadRequest,
                INTERNAL_ERROR@,
            ),
    {
        match self {
            FileStep::Decoded(decoded) => Ok(decoded),
            FileStep::Decode { upload, format, bytes: _ } => match picture {
                Some(picture) => Ok(DecodedUpload { upload, format, picture }),
                None => Err(Refusal::with_body(Status::BadRequest, INTERNAL_ERROR)),
            },
        }
    }
}

/// What to do next with a picture.
pub enum FitStep {
    /// It is no higher than it may be
    Fits(FittedUpload),
    /// It is too high: make it smaller
    Shrink(DecodedUpload),
}

/// A picture that was made smaller, to be saved in place of the one that was
/// uploaded.
pub struct SmallerUpload {
    upload: CheckedUpload,
    format: image::ImageFormat,
    picture: image::DynamicImage,
    original: (u32, u32),
}

/// A file that holds a picture which is no higher than it may be.
pub struct FittedUpload {
    upload: CheckedUpload,
    original: (u32, u32),
    kept: (u32, u32),
}

/// A picture whose file has a name that can be used.
pub struct CleanUpload {
    pub upload: CheckedUpload,
    pub file_name: String,
    pub width: u32,
    pub height: u32,
}

impl DecodedUpload {
    /// Width and height of the picture.
    pub fn dimensions(&self) -> (res: (u32, u32))
        ensures
            res == size_of(self.picture),
    {
        images::dimensions(&self.picture)
    }

    /// Decides whether the picture can stay as it is, or is higher than it may
    /// be.
    pub fn fit(self) -> (res: FitStep)
        ensures
            if size_of(self.picture).1 <= MAX_HEIGHT {
                &&& res matches FitStep::Fits(fitted)
                &&& fitted.checked() == self.upload
                &&& fitted.original_size() == size_of(self.picture)
                &&& fitted.kept_size() == size_of(self.picture)
            } else {
                res == FitStep::Shrink(self)
            },
    {
        let original = images::dimensions(&self.picture);
        if original.1 > MAX_HEIGHT {
            return FitStep::Shrink(self);
        }
        FitStep::Fits(FittedUpload { upload: self.upload, original, kept: original })
    }

    /// The picture, made to fit `width` and the height that a picture may
    /// have. It keeps its proportions.
    pub fn smaller(self, width: u32) -> (res: SmallerUpload)
        requires
            size_of(self.picture).1 > MAX_HEIGHT,
            width <= size_of(self.picture).0,
        ensures
            res.checked() == self.upload,
            res.format_to_save() == self.format,
            res.original_size() == size_of(self.picture),
            is_resized(size_of(self.picture), width, MAX_HEIGHT, res.new_size()),
            res.new_size().1 <= MAX_HEIGHT,
    {
        let original = images::dimensions(&self.picture);
        let picture = images::resize(&self.picture, width, MAX_HEIGHT);
        SmallerUpload { upload: self.upload, format: self.format, picture, original }
    }
}

impl SmallerUpload {
    #[verifier::type_invariant]
    spec fn is_small(self) -> bool {
        size_of(self.picture).1 <= MAX_HEIGHT
    }

    /// The upload that the picture belongs to.
    pub closed spec fn checked(self) -> CheckedUpload {
        self.upload
    }

    /// The format of the file.
    pub closed spec fn format_to_save(self) -> image::ImageFormat {
        self.format
    }

    /// The size that the picture had.
    pub closed spec fn original_size(self) -> (u32, u32) {
        self.original
    }

    /// The size that the picture has now.
    pub closed spec fn new_size(self) -> (u32, u32) {
        size_of(self.picture)
    }

    /// The picture to save.
    pub fn picture(&self) -> (res: &image::DynamicImage)
        ensures
            size_of(*res) == self.new_size(),
            size_of(*res).1 <= MAX_HEIGHT,
    {
        proof {
            use_type_invariant(self);
        }
        &self.picture
    }

    /// The format to save the picture in: that of the file.
    pub fn format(&self) -> (res: &image::ImageFormat)
        ensures
            *res == self.format_to_save(),
    {
        &self.format
    }

    /// Goes on once the picture was saved. Where it could not be, the reason is
    /// the answer.
    pub fn saved(self, result: Result<(), String>) -> (res: Result<FittedUpload, Refusal>)
        ensures
            res is Ok <==> result is Ok,
            res matches Ok(fitted) ==> {
                &&& fitted.checked() == self.checked()
                &&& fitted.original_size() == self.original_size()
                &&& fitted.kept_size() == self.new_size()
            },
            res matches Err(refusal) ==> refusal@ == Refusal::of(
                Status::InternalServerError,
                result->Err_0@,
            ),
    {
        proof {
            use_type_invariant(&self);
        }
        match result {
            Ok(_) => {
                let kept = images::dimensions(&self.picture);
                Ok(FittedUpload { upload: self.upload, original: self.original, kept })
            },
            Err(reason) => Err(
                Refusal { status: Status::InternalServerError, body: Some(reason) },
            ),
        }
    }
}

impl FittedUpload {
    #[verifier::type_invariant]
    spec fn is_fitted(self) -> bool {
        self.kept.1 <= MAX_HEIGHT
    }

    /// The upload that the file belongs to.
    pub closed spec fn checked(self) -> CheckedUpload {
        self.upload
    }

    /// The size of the picture that was uploaded.
    pub closed spec fn original_size(self) -> (u32, u32) {
        self.original
    }

    /// The size of the picture that the file holds now.
    pub closed spec fn kept_size(self) -> (u32, u32) {
        self.kept
    }

    /// Width and height of the picture that the file holds now. It is never
    /// higher than it may be.
    pub fn dimensions(&self) -> (res: (u32, u32))
        ensures
            res == self.kept_size(),
            res.1 <= MAX_HEIGHT,
    {
        proof {
            use_type_invariant(self);
        }
        self.kept
    }

    /// Cleans the name of the file. A file without a name is refused. The
    /// picture's dimensions are the original ones, also where a smaller one was
    /// saved.
    pub fn sanitize(self) -> (res: Result<CleanUpload, Refusal>)
        ensures
            res is Ok <==> self.checked().file_name is Some,
            res matches Ok(clean) ==> {
                let name = self.checked().file_name->0@;
                &&& clean.upload == self.checked()
                &&& clean.file_name@ == cleaned(name, false) || clean.file_name@ == cleaned(
                    name,
                    true,
                )
                &&& forall|i: int|
                    0 <= i < clean.file_name@.len() ==> is_file_name_char(
                        #[trigger] clean.file_name@[i],
                    )
                &&& clean.file_name@.len() <= 255
                &&& (clean.width, clean.height) == self.original_size()
            },
            res matches Err(refusal) ==> refusal@ == Refusal::of(
                Status::InternalServerError,
                "Missing file name"@,
            ),
    {
        let (width, height) = self.original;
        let file_name = match &self.upload.file_name {
            Some(name) => filenames::sanitize(name.as_str()),
            None => {
                return Err(
                    Refusal::with_body(Status::InternalServerError, "Missing file name"),
                );
            },
        };
        Ok(CleanUpload { upload: self.upload, file_name, width, height })
    }
}

/// The folder of a channel's attachments.
pub open spec fn folder(channel_id: i64) -> Seq<char> {
    "attachments/"@ + decimal(channel_id as int) + "/"@
}

/// The name under which a file is uploaded.
pub open spec fn public_id(channel_id: i64, id: i64, file_name: Seq<char>) -> Seq<char> {
    folder(channel_id) + decimal(id as int) + "-"@ + stem(file_name)
}

/// The address that an attachment is given.
pub open spec fn attachment_url(channel_id: i64, id: i64, file_name: Seq<char>) -> Seq<char> {
    "https://cdn.shiki.space/"@ + (folder(channel_id) + decimal(id as int) + "/"@ + stem(
        file_name,
    )) + extension(file_name)
}

/// A file that has an id, with the record to store for it.
#[derive(Debug)]
pub struct NamedUpload {
    /// The name to upload the file under
    pub public_id: String,
    pub attachment: Attachment,
}

/// What is stored for a file.
pub open spec fn attachment_record(clean: CleanUpload, id: i64) -> AttachmentView {
    AttachmentView {
        id,
        filename: clean.file_name@,
        size: clean.upload.size,
        url: attachment_url(clean.upload.channel_id, id, clean.file_name@),
        width: clean.width,
        height: clean.height,
        content_type: clean.upload.content_type@,
    }
}

fn folder_text(channel_id: i64) -> (res: String)
    ensures
        res@ == folder(channel_id),
{
    let mut res = "attachments/".to_owned();
    append_signed(&mut res, channel_id);
    res.append("/");
    res
}

impl CleanUpload {
    /// Gives the file the next id.
    pub fn identify(self, ids: &mut IdGenerator) -> (res: NamedUpload)
        ensures
            is_server_id(res.attachment.id),
            res.attachment@ == attachment_record(self, res.attachment.id),
            res.public_id@ == public_id(
                self.upload.channel_id,
                res.attachment.id,
                self.file_name@,
            ),
            final(ids).place() == old(ids).place(),
            final(ids).epoch() == old(ids).epoch(),
    {
        let id = ids.generate();
        self.identify_as(id)
    }

    /// Gives the file an id.
    pub fn identify_as(self, id: i64) -> (res: NamedUpload)
        ensures
            res.attachment@ == attachment_record(self, id),
            res.public_id@ == public_id(self.upload.channel_id, id, self.file_name@),
    {
        let (name, ext) = split_name(self.file_name.as_str());
        let mut public = folder_text(self.upload.channel_id);
        append_signed(&mut public, id);
        public.append("-");
        public.append(name.as_str());
        let mut path = folder_text(self.upload.channel_id);
        append_signed(&mut path, id);
        path.append("/");
        path.append(name.as_str());
        let mut url = "https://cdn.shiki.space/".to_owned();
        url.append(path.as_str());
        url.append(ext.as_str());
        NamedUpload {
            public_id: public,
            attachment: Attachment {
                id,
                filename: self.file_name,
                size: self.upload.size,
                url,
                width: self.width,
                height: self.height,
                content_type: self.upload.content_type,
            },
        }
    }
}

impl NamedUpload {
    /// The record to store, once the file was uploaded. Where it could not be,
    /// nothing is stored.
    pub fn uploaded(self, success: bool) -> (res: Result<Attachment, Refusal>)
        ensures
            res is Ok <==> success,
            res matches Ok(attachment) ==> attachment == self.attachment,
            res matches Err(refusal) ==> refusal@ == Refusal::of(
                Status::InternalServerError,
                INTERNAL_ERROR@,
            ),
    {
        if !success {
            return Err(Refusal::internal());
        }
        Ok(self.attachment)
    }
}

/// The answer, once the record was stored or not.
pub fn attachment_stored(attachment: Attachment, success: bool) -> (res: Result<
    Attachment,
    Refusal,
>)
    ensures
        res is Ok <==> success,
        res matches Ok(answer) ==> answer == attachment,
        res matches Err(refusal) ==> refusal@ == Refusal::of(
            Status::InternalServerError,
            INTERNAL_ERROR@,
        ),
{
    if success {
        Ok(attachment)
    } else {
        Err(Refusal::internal())
    }
}

/// The number of path separators in a text.
pub open spec fn slashes(text: Seq<char>) -> nat
    decreases text.len(),
{
    if text.len() == 0 {
        0
    } else {
        slashes(text.drop_last()) + if text.last() == '/' {
            1nat
        } else {
            0nat
        }
    }
}

proof fn lemma_slashes_join(a: Seq<char>, b: Seq<char>)
    ensures
        slashes(a + b) == slashes(a) + slashes(b),
    decreases b.len(),
{
    if b.len() == 0 {
        assert(a + b =~= a);
    } else {
        assert((a + b).drop_last() =~= a + b.drop_last());
        lemma_slashes_join(a, b.drop_last());
    }
}

proof fn lemma_no_slashes(text: Seq<char>)
    requires
        forall|i: int| 0 <= i < text.len() ==> text[i] != '/',
    ensures
        slashes(text) == 0,
    decreases text.len(),
{
    if text.len() > 0 {
        lemma_no_slashes(text.drop_last());
    }
}

/// An uploaded file creates no folder of its own: its name holds no
/// path separator besides those of the channel's folder.
pub proof fn law_no_additional_folder(channel_id: i64, id: i64, file_name: Seq<char>)
    requires
        forall|i: int| 0 <= i < file_name.len() ==> is_file_name_char(#[trigger] file_name[i]),
    ensures
        slashes(public_id(channel_id, id, file_name)) == slashes(folder(channel_id)),
        slashes(folder(channel_id)) == 2,
{
    reveal_strlit("attachments/");
    reveal_strlit("/");
    reveal_strlit("-");
    let channel = decimal(channel_id as int);
    let number = decimal(id as int);
    lemma_decimal(channel_id as int);
    lemma_decimal(id as int);
    lemma_no_slashes(channel);
    lemma_no_slashes(number);
    lemma_no_slashes("-"@);
    filenames::law_name_is_stem_and_extension(file_name);
    assert forall|i: int| 0 <= i < stem(file_name).len() implies stem(file_name)[i] != '/' by {
        assert(stem(file_name)[i] == file_name[i]);
    }
    lemma_no_slashes(stem(file_name));
    lemma_no_slashes("attachments/"@.drop_last());
    lemma_no_slashes("/"@.drop_last());
    assert(slashes("/"@) == 1);
    lemma_slashes_join("attachments/"@, channel);
    lemma_slashes_join("attachments/"@ + channel, "/"@);
    lemma_slashes_join(folder(channel_id), number);
    lemma_slashes_join(folder(channel_id) + number, "-"@);
    lemma_slashes_join(folder(channel_id) + number + "-"@, stem(file_name));
}

/// A file is taken if and only if its channel exists, it has between one byte
/// and five mebibytes, and the client calls it a PNG, a JPEG, a GIF or a WebP.
pub proof fn law_only_images_are_taken(request: UploadRequest, channel_exists: bool)
    ensures
        upload_refusal(request, channel_exists) is None <==> {
            &&& channel_exists
            &&& 1 <= request.size <= 5242880
            &&& request.content_type matches Some(content_type)
            &&& content_type@ == "image/png"@ || content_type@ == "image/jpeg"@ || content_type@
                == "image/gif"@ || content_type@ == "image/webp"@
        },
{
}

/// What a file that is not taken is answered: 404 where its channel does not
/// exist, and else 400, with the limit where it is too large and without a
/// reason where its type is not taken.
pub proof fn law_refused_files_are_told_why(request: UploadRequest, channel_exists: bool)
    requires
        upload_refusal(request, channel_exists) is Some,
    ensures
        ({
            let answer = upload_refusal(request, channel_exists)->0;
            &&& answer.status == Status::NotFound <==> !channel_exists
            &&& answer.status == Status::BadRequest <==> channel_exists
            &&& answer.body is None <==> !channel_exists || request.size == 0
            &&& channel_exists && request.size > 5242880 ==> answer.body == Some(
                "The uploaded file is too large. Maximum size is 5242880 bytes."@,
            )
            &&& channel_exists && 0 < request.size <= 5242880 ==> answer.body == Some(
                "Something went wrong"@,
            )
        }),
{
    reveal_strlit("The uploaded file is too large. Maximum size is ");
    reveal_strlit(" bytes.");
    reveal_strlit("The uploaded file is too large. Maximum size is 5242880 bytes.");
    reveal_with_fuel(digits, 7);
    assert(decimal(5242880) =~= seq!['5', '2', '4', '2', '8', '8', '0']);
    assert(too_large() =~= "The uploaded file is too large. Maximum size is 5242880 bytes."@);
}

/// The address of a file names its channel, its own id and its whole name, each
/// after a slash.
pub proof fn law_the_address_names_the_file(channel_id: i64, id: i64, file_name: Seq<char>)
    ensures
        attachment_url(channel_id, id, file_name) == "https://cdn.shiki.space/attachments/"@
            + decimal(channel_id as int) + seq!['/'] + decimal(id as int) + seq!['/'] + file_name,
{
    reveal_strlit("https://cdn.shiki.space/");
    reveal_strlit("attachments/");
    reveal_strlit("https://cdn.shiki.space/attachments/");
    reveal_strlit("/");
    filenames::law_name_is_stem_and_extension(file_name);
    assert("https://cdn.shiki.space/"@ + "attachments/"@
        =~= "https://cdn.shiki.space/attachments/"@);
    let whole = stem(file_name) + extension(file_name);
    assert(attachment_url(channel_id, id, file_name) =~= "https://cdn.shiki.space/attachments/"@
        + decimal(channel_id as int) + seq!['/'] + decimal(id as int) + seq!['/'] + whole);
}

proof fn lemma_address_parts(channel_id: i64, id: i64, file_name: Seq<char>)
    ensures
        attachment_url(channel_id, id, file_name) == "https://cdn.shiki.space/attachments/"@ + (
        decimal(channel_id as int) + seq!['/'] + (decimal(id as int) + seq!['/'] + file_name)),
{
    law_the_address_names_the_file(channel_id, id, file_name);
    assert(attachment_url(channel_id, id, file_name) =~= "https://cdn.shiki.space/attachments/"@
        + (decimal(channel_id as int) + seq!['/'] + (decimal(id as int) + seq!['/'] + file_name)));
}

proof fn lemma_same_start(start: Seq<char>, a: Seq<char>, b: Seq<char>)
    requires
        start + a == start + b,
    ensures
        a == b,
{
    assert(a =~= (start + a).skip(start.len() as int));
    assert(b =~= (start + b).skip(start.len() as int));
}

proof fn lemma_no_slash_in_decimal(n: int)
    ensures
        !decimal(n).contains('/'),
{
    lemma_decimal(n);
    assert forall|i: int| 0 <= i < decimal(n).len() implies decimal(n)[i] != '/' by {
        assert(is_digit(decimal(n)[i]) || decimal(n)[i] == '-');
    }
}

/// Files that differ in channel, id or name have different addresses.
pub proof fn law_addresses_are_distinct(
    channel_id: i64,
    id: i64,
    file_name: Seq<char>,
    other_channel: i64,
    other_id: i64,
    other_name: Seq<char>,
)
    requires
        attachment_url(channel_id, id, file_name) == attachment_url(
            other_channel,
            other_id,
            other_name,
        ),
    ensures
        channel_id == other_channel,
        id == other_id,
        file_name == other_name,
{
    lemma_address_parts(channel_id, id, file_name);
    lemma_address_parts(other_channel, other_id, other_name);
    let start = "https://cdn.shiki.space/attachments/"@;
    let a = decimal(channel_id as int);
    let b = decimal(other_channel as int);
    let rest = decimal(id as int) + seq!['/'] + file_name;
    let other = decimal(other_id as int) + seq!['/'] + other_name;
    lemma_no_slash_in_decimal(channel_id as int);
    lemma_no_slash_in_decimal(other_channel as int);
    lemma_no_slash_in_decimal(id as int);
    lemma_no_slash_in_decimal(other_id as int);
    lemma_same_start(start, a + seq!['/'] + rest, b + seq!['/'] + other);
    lemma_same_up_to_a_mark(a, b, '/', rest, other);
    lemma_same_up_to_a_mark(
        decimal(id as int),
        decimal(other_id as int),
        '/',
        file_name,
        other_name,
    );
    lemma_decimal_injective(channel_id as int, other_channel as int);
    lemma_decimal_injective(id as int, other_id as int);
}

/// The name that a file is uploaded under, with the extension put back, names
/// its channel, its own id and its whole name: the id stands after the folder
/// of the channel and before a hyphen.
pub proof fn law_the_public_id_names_the_file(channel_id: i64, id: i64, file_name: Seq<char>)
    ensures
        public_id(channel_id, id, file_name) + extension(file_name) == "attachments/"@ + decimal(
            channel_id as int,
        ) + seq!['/'] + decimal(id as int) + seq!['-'] + file_name,
{
    reveal_strlit("/");
    reveal_strlit("-");
    filenames::law_name_is_stem_and_extension(file_name);
    let whole = stem(file_name) + extension(file_name);
    assert(public_id(channel_id, id, file_name) + extension(file_name) =~= "attachments/"@
        + decimal(channel_id as int) + seq!['/'] + decimal(id as int) + seq!['-'] + whole);
}

/// Files that differ in channel or id are uploaded under different names.
pub proof fn law_public_ids_are_distinct(
    channel_id: i64,
    id: i64,
    file_name: Seq<char>,
    other_channel: i64,
    other_id: i64,
    other_name: Seq<char>,
)
    requires
        public_id(channel_id, id, file_name) == public_id(other_channel, other_id, other_name),
    ensures
        channel_id == other_channel,
        id == other_id,
{
    reveal_strlit("/");
    reveal_strlit("-");
    let start = "attachments/"@;
    let a = decimal(channel_id as int);
    let b = decimal(other_channel as int);
    let i = decimal(id as int);
    let j = decimal(other_id as int);
    let rest = i + seq!['-'] + stem(file_name);
    let other = j + seq!['-'] + stem(other_name);
    lemma_no_slash_in_decimal(channel_id as int);
    lemma_no_slash_in_decimal(other_channel as int);
    assert(public_id(channel_id, id, file_name) =~= start + (a + seq!['/'] + rest));
    assert(public_id(other_channel, other_id, other_name) =~= start + (b + seq!['/'] + other));
    lemma_same_start(start, a + seq!['/'] + rest, b + seq!['/'] + other);
    lemma_same_up_to_a_mark(a, b, '/', rest, other);
    lemma_decimal_injective(channel_id as int, other_channel as int);
    law_decimal_says_the_number(id as int);
    law_decimal_says_the_number(other_id as int);
    assert(rest[0] == i[0] && other[0] == j[0]);
    assert(i.skip(1) + seq!['-'] + stem(file_name) =~= rest.skip(1));
    assert(j.skip(1) + seq!['-'] + stem(other_name) =~= other.skip(1));
    assert forall|k: int| 0 <= k < i.skip(1).len() implies i.skip(1)[k] != '-' by {
        assert(is_digit(i[k + 1]));
    }
    assert forall|k: int| 0 <= k < j.skip(1).len() implies j.skip(1)[k] != '-' by {
        assert(is_digit(j[k + 1]));
    }
    lemma_same_up_to_a_mark(i.skip(1), j.skip(1), '-', stem(file_name), stem(other_name));
    assert(i =~= seq![i[0]] + i.skip(1));
    assert(j =~= seq![j[0]] + j.skip(1));
    lemma_decimal_injective(id as int, other_id as int);
}

/// The record of a file has the id that the file was given, the file's name,
/// size and type, the size of the picture that was uploaded, and an address that
/// ends in that id and name.
pub proof fn law_the_record_describes_the_file(clean: CleanUpload, id: i64)
    ensures
        ({
            let record = attachment_record(clean, id);
            &&& record.id == id
            &&& record.filename == clean.file_name@
            &&& record.size == clean.upload.size
            &&& record.width == clean.width
            &&& record.height == clean.height
            &&& record.content_type == clean.upload.content_type@
            &&& record.url == "https://cdn.shiki.space/attachments/"@ + decimal(
                clean.upload.channel_id as int,
            ) + seq!['/'] + decimal(id as int) + seq!['/'] + clean.file_name@
        }),
{
    law_the_address_names_the_file(clean.upload.channel_id, id, clean.file_name@);
}

} // verus!
