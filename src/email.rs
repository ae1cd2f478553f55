use vstd::prelude::*;

use crate::error::ErrorKind;
use crate::settings::Settings;

verus! {

/// An attachment as the composer sends it: a file name and base64 text.
#[derive(Debug, Clone, PartialEq, Eq)]
pub struct AttachmentPayload {
    pub filename: String,
    pub content: String,
}

/// A compose request.
#[derive(Debug, Clone, PartialEq, Eq)]
pub struct EmailComposerData {
    pub from: String,
    pub to: Vec<String>,
    pub subject: String,
    pub cc: Vec<String>,
    pub bcc: Vec<String>,
    pub reply_to: Option<String>,
    pub content: String,
    pub message_id: Option<String>,
    pub attachments: Vec<AttachmentPayload>,
}

/// An attachment with its content decoded.
#[derive(Debug, Clone, PartialEq, Eq)]
pub struct DecodedAttachment {
    pub filename: String,
    pub bytes: Vec<u8>,
}

/// A message ready to hand to the delivery provider, with the key that
/// authenticates it.
#[derive(Debug, Clone, PartialEq, Eq)]
pub struct OutgoingEmail {
    pub api_key: String,
    pub from: String,
    pub to: Vec<String>,
    pub subject: String,
    pub html: String,
    pub cc: Vec<String>,
    pub bcc: Vec<String>,
    pub reply_to: Option<String>,
    /// The message this one answers; sent as the `In-Reply-To` header.
    pub in_reply_to: Option<String>,
    pub attachments: Vec<DecodedAttachment>,
}

#[verifier::external_type_specification]
#[verifier::external_body]
pub struct ExDecodeError(base64::DecodeError);

/// The bytes that a text encodes in standard base64, or `None` when it is
/// not valid standard base64.
pub uninterp spec fn base64_decoded(text: Seq<char>) -> Option<Seq<u8>>;

/// Relies on base64's standard engine (`general_purpose::STANDARD.decode`):
/// the bytes that the text encodes, or an error when it is not valid base64.
#[verifier::external_body]
fn decode_base64(text: &String) -> (r: Result<Vec<u8>, base64::DecodeError>)
    ensures
        r is Ok <==> base64_decoded(text@) is Some,
        r is Ok ==> r->Ok_0@ == base64_decoded(text@)->0,
{
    base64::Engine::decode(&base64::engine::general_purpose::STANDARD, text)
}

/// The attachment's content is valid base64.
pub open spec fn decodable(a: AttachmentPayload) -> bool {
    base64_decoded(a.content@) is Some
}

/// `k` is the first attachment whose content is not valid base64.
pub open spec fn is_first_undecodable(s: Seq<AttachmentPayload>, k: int) -> bool {
    &&& 0 <= k < s.len()
    &&& !decodable(s[k])
    &&& forall|j: int| 0 <= j < k ==> decodable(s[j])
}

/// `d` is the attachment `a` with its content decoded.
pub open spec fn decodes_to(a: AttachmentPayload, d: DecodedAttachment) -> bool {
    &&& d.filename == a.filename
    &&& base64_decoded(a.content@) == Some(d.bytes@)
}

/// The attachment built from the outcome of decoding its content: the
/// decoded bytes, or `AttachmentDecode` naming the file when decoding failed.
pub fn decoded_attachment(att: &AttachmentPayload, decoded: Option<Vec<u8>>) -> (r: Result<
    DecodedAttachment,
    ErrorKind,
>)
    ensures
        decoded is Some ==> r == Ok::<DecodedAttachment, ErrorKind>(
            DecodedAttachment { filename: att.filename, bytes: decoded->0 },
        ),
        decoded is None ==> r == Err::<DecodedAttachment, ErrorKind>(
            ErrorKind::AttachmentDecode { filename: att.filename },
        ),
{
    match decoded {
        Some(bytes) => Ok(DecodedAttachment { filename: att.filename.clone(), bytes }),
        None => Err(ErrorKind::AttachmentDecode { filename: att.filename.clone() }),
    }
}

/// Decodes every attachment in order; stops at the first one that is not
/// valid base64 and names its file.
pub fn decode_attachments(atts: &Vec<AttachmentPayload>) -> (r: Result<
    Vec<DecodedAttachment>,
    ErrorKind,
>)
    ensures
        r is Ok <==> forall|i: int| 0 <= i < atts@.len() ==> decodable(#[trigger] atts@[i]),
        r is Ok ==> r->Ok_0@.len() == atts@.len() && forall|i: int|
            0 <= i < atts@.len() ==> decodes_to(atts@[i], #[trigger] r->Ok_0@[i]),
        r is Err ==> exists|k: int|
            is_first_undecodable(atts@, k) && r->Err_0 == (ErrorKind::AttachmentDecode {
                filename: atts@[k].filename,
            }),
{
    let mut out: Vec<DecodedAttachment> = Vec::new();
    let mut i: usize = 0;
    while i < atts.len()
        invariant
            i <= atts.len(),
            out@.len() == i,
            forall|j: int| 0 <= j < i ==> decodable(atts@[j]),
            forall|j: int| 0 <= j < i ==> decodes_to(atts@[j], #[trigger] out@[j]),
        decreases atts.len() - i,
    {
        let decoded = match decode_base64(&atts[i].content) {
            Ok(bytes) => Some(bytes),
            Err(_) => None,
        };
        match decoded_attachment(&atts[i], decoded) {
            Ok(d) => {
                out.push(d);
            },
            Err(e) => {
                assert(is_first_undecodable(atts@, i as int));
                return Err(e);
            },
        }
        i += 1;
    }
    Ok(out)
}

/// Turns a compose request into a message for the provider. Fails with the
/// error of reading the key, with `Unconfigured` when no key is stored, or
/// with `AttachmentDecode` for the first attachment that is not valid
/// base64; in each of these cases nothing is to be sent.
pub fn prepare_email(settings: &Settings, data: EmailComposerData) -> (r: Result<
    OutgoingEmail,
    ErrorKind,
>)
    ensures
        settings.api_key_result() is Err ==> r == Err::<OutgoingEmail, ErrorKind>(
            settings.api_key_result()->Err_0,
        ),
        settings.api_key_result() == Ok::<Option<String>, ErrorKind>(None) ==> r == Err::<
            OutgoingEmail,
            ErrorKind,
        >(ErrorKind::Unconfigured),
        settings.api_key_result() is Ok && settings.api_key_result()->Ok_0 is Some ==> {
            &&& r is Ok <==> forall|i: int|
                0 <= i < data.attachments@.len() ==> decodable(#[trigger] data.attachments@[i])
            &&& r is Err ==> exists|k: int|
                is_first_undecodable(data.attachments@, k) && r->Err_0 == (
                ErrorKind::AttachmentDecode { filename: data.attachments@[k].filename })
            &&& r is Ok ==> {
                let m = r->Ok_0;
                &&& m.api_key == settings.api_key_result()->Ok_0->0
                &&& m.from == data.from
                &&& m.to@ == data.to@
                &&& m.subject == data.subject
                &&& m.html == data.content
                &&& m.cc@ == data.cc@
                &&& m.bcc@ == data.bcc@
                &&& m.reply_to == data.reply_to
                &&& m.in_reply_to == data.message_id
                &&& m.attachments@.len() == data.attachments@.len()
                &&& forall|i: int|
                    0 <= i < data.attachments@.len() ==> decodes_to(
                        data.attachments@[i],
                        #[trigger] m.attachments@[i],
                    )
            }
        },
{
    let api_key = match settings.get_api_key() {
        Ok(Some(k)) => k,
        Ok(None) => {
            return Err(ErrorKind::Unconfigured);
        },
        Err(e) => {
            return Err(e);
        },
    };
    let attachments = match decode_attachments(&data.attachments) {
        Ok(v) => v,
        Err(e) => {
            return Err(e);
        },
    };
    Ok(
        OutgoingEmail {
            api_key,
            from: data.from,
            to: data.to,
            subject: data.subject,
            html: data.content,
            cc: data.cc,
            bcc: data.bcc,
            reply_to: data.reply_to,
            in_reply_to: data.message_id,
            attachments,
        },
    )
}

} // verus!
