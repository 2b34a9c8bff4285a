use vstd::prelude::*;

use crate::error::ClientError;
use base64::Engine;

verus! {

/// Names the text that base64's standard padded engine produces: it
/// depends on the input bytes alone.
pub uninterp spec fn base64_of(bytes: Seq<u8>) -> Seq<char>;

/// Relies on the `encode` method of base64's `STANDARD` engine (standard
/// alphabet, padded): the encoding is a function of the input bytes alone.
#[verifier::external_body]
fn base64_encode(bytes: &Vec<u8>) -> (r: String)
    ensures
        r@ == base64_of(bytes@),
{
    base64::engine::general_purpose::STANDARD.encode(bytes)
}

/// Names the MIME type that `mime_guess` associates with a file extension:
/// a lookup in a fixed table, with `application/octet-stream` as fallback,
/// so it depends on the extension alone.
pub uninterp spec fn mime_of_ext(ext: Seq<char>) -> Seq<char>;

/// Relies on `mime_guess::from_ext` followed by `first_or_octet_stream`:
/// a fixed-table lookup keyed by the extension alone.
#[verifier::external_body]
fn mime_for_extension(ext: &str) -> (r: String)
    ensures
        r@ == mime_of_ext(ext@),
{
    mime_guess::from_ext(ext).first_or_octet_stream().to_string()
}

/// `p` is the dot that starts the extension of `path`: the last dot, inside
/// the final path component, and not that component's first character.
pub open spec fn is_extension_witness(path: Seq<char>, p: int) -> bool {
    &&& 1 <= p < path.len()
    &&& path[p] == '.'
    &&& path[p - 1] != '/'
    &&& forall|j: int| p < j < path.len() ==> path[j] != '.' && path[j] != '/'
}

/// Whether the final component of `path` has an extension.
pub open spec fn has_extension(path: Seq<char>) -> bool {
    exists|p: int| is_extension_witness(path, p)
}

/// The extension of `path`: what follows the dot that `is_extension_witness`
/// describes.
pub open spec fn extension_of(path: Seq<char>) -> Seq<char>
    recommends
        has_extension(path),
{
    let p = choose|p: int| is_extension_witness(path, p);
    path.subrange(p + 1, path.len() as int)
}

proof fn lemma_extension_witness_unique(path: Seq<char>, p1: int, p2: int)
    requires
        is_extension_witness(path, p1),
        is_extension_witness(path, p2),
    ensures
        p1 == p2,
{
    if p1 < p2 {
        assert(path[p2] == '.');
        assert(false);
    }
    if p2 < p1 {
        assert(path[p1] == '.');
        assert(false);
    }
}

/// Finds the extension of a file path, if its final component has one.
pub fn extension_in(path: &str) -> (r: Option<&str>)
    ensures
        r matches Some(e) ==> has_extension(path@) && e@ == extension_of(path@),
        r is None ==> !has_extension(path@),
{
    let n = path.unicode_len();
    let mut dot: usize = 0;
    let mut has_dot: bool = false;
    let mut slash: usize = 0;
    let mut has_slash: bool = false;
    let mut i: usize = 0;
    while i < n
        invariant
            0 <= i <= n,
            n == path@.len(),
            has_dot ==> dot < i && path@[dot as int] == '.',
            has_dot ==> forall|j: int| dot < j < i ==> path@[j] != '.',
            !has_dot ==> forall|j: int| 0 <= j < i ==> path@[j] != '.',
            has_slash ==> slash < i && path@[slash as int] == '/',
            has_slash ==> forall|j: int| slash < j < i ==> path@[j] != '/',
            !has_slash ==> forall|j: int| 0 <= j < i ==> path@[j] != '/',
        decreases n - i,
    {
        let c = path.get_char(i);
        if c == '.' {
            dot = i;
            has_dot = true;
        }
        if c == '/' {
            slash = i;
            has_slash = true;
        }
        i = i + 1;
    }
    let ok = has_dot && dot >= 1 && (!has_slash || slash + 1 < dot);
    if !ok {
        proof {
            if has_extension(path@) {
                let p = choose|p: int| is_extension_witness(path@, p);
                assert(path@[p] == '.');
                assert(has_dot);
                assert(p <= dot);
                if p < dot {
                    assert(path@[dot as int] == '.');
                    assert(false);
                }
                assert(p == dot);
                assert(dot >= 1);
                if has_slash && slash + 1 >= dot {
                    assert(path@[slash as int] == '/');
                    if slash >= dot {
                        assert(false);
                    }
                    assert(slash == dot - 1);
                    assert(false);
                }
                assert(false);
            }
        }
        return None;
    }
    proof {
        assert forall|j: int| dot < j < n implies path@[j] != '.' && path@[j] != '/' by {
            if has_slash {
                assert(slash < dot);
            }
        }
        assert(is_extension_witness(path@, dot as int));
        let p = choose|p: int| is_extension_witness(path@, p);
        lemma_extension_witness_unique(path@, p, dot as int);
    }
    Some(path.substring_char(dot + 1, n))
}

/// What an attachment holds, seen abstractly: the stored content is
/// already base64 text.
pub struct AttachmentData {
    pub name: Seq<char>,
    pub content: Seq<char>,
    pub content_type: Seq<char>,
    pub content_id: Option<Seq<char>>,
}

/// A named, MIME-typed, base64-encoded payload attached to a message.
/// The content is base64 text from construction on; the raw bytes never
/// persist past `build`, and the builder and `from_file_bytes` are the
/// only ways to construct one.
#[derive(Debug, Clone)]
pub struct Attachment {
    pub(crate) name: String,
    pub(crate) content: String,
    pub(crate) content_type: String,
    pub(crate) content_id: Option<String>,
}

impl View for Attachment {
    type V = AttachmentData;

    closed spec fn view(&self) -> AttachmentData {
        AttachmentData {
            name: self.name@,
            content: self.content@,
            content_type: self.content_type@,
            content_id: match self.content_id {
                Some(c) => Some(c@),
                None => None,
            },
        }
    }
}

/// Spells the view out field by field for the crate's own proofs, which
/// read the attachment's parts directly.
pub(crate) proof fn lemma_attachment_view(a: Attachment)
    ensures
        a@ == (AttachmentData {
            name: a.name@,
            content: a.content@,
            content_type: a.content_type@,
            content_id: match a.content_id {
                Some(c) => Some(c@),
                None => None,
            },
        }),
{
}

impl Attachment {
    /// The attachment's file name.
    pub fn name(&self) -> (r: &str)
        ensures
            r@ == self@.name,
    {
        self.name.as_str()
    }

    /// The stored content: always base64 text, never raw bytes.
    pub fn content(&self) -> (r: &str)
        ensures
            r@ == self@.content,
    {
        self.content.as_str()
    }

    /// The MIME type.
    pub fn content_type(&self) -> (r: &str)
        ensures
            r@ == self@.content_type,
    {
        self.content_type.as_str()
    }

    /// The content id used for inline references, when set.
    pub fn content_id(&self) -> (r: Option<&str>)
        ensures
            (match r {
                Some(c) => self@.content_id == Some(c@),
                None => self@.content_id is None,
            }),
    {
        match &self.content_id {
            Some(c) => Some(c.as_str()),
            None => None,
        }
    }
}

/// What has been staged so far while building an attachment.
pub struct AttachmentStaging {
    pub name: Option<Seq<char>>,
    pub content: Option<Seq<u8>>,
    pub content_type: Option<Seq<char>>,
    pub content_id: Option<Seq<char>>,
}

/// Accumulates the fields of an `Attachment`; `build` checks the required
/// ones and encodes the content.
#[derive(Debug, Clone)]
pub struct AttachmentBuilder {
    name: Option<String>,
    content: Option<Vec<u8>>,
    content_type: Option<String>,
    content_id: Option<String>,
}

impl View for AttachmentBuilder {
    type V = AttachmentStaging;

    closed spec fn view(&self) -> AttachmentStaging {
        AttachmentStaging {
            name: match self.name {
                Some(n) => Some(n@),
                None => None,
            },
            content: match self.content {
                Some(c) => Some(c@),
                None => None,
            },
            content_type: match self.content_type {
                Some(t) => Some(t@),
                None => None,
            },
            content_id: match self.content_id {
                Some(c) => Some(c@),
                None => None,
            },
        }
    }
}

impl AttachmentBuilder {
    /// An empty staging area: every field still absent.
    pub fn new() -> (r: Self)
        ensures
            r@.name is None,
            r@.content is None,
            r@.content_type is None,
            r@.content_id is None,
    {
        AttachmentBuilder { name: None, content: None, content_type: None, content_id: None }
    }

    /// Sets the attachment's file name, replacing any earlier value.
    pub fn name(self, name: &str) -> (r: Self)
        ensures
            r@.name == Some(name@),
            r@.content == self@.content,
            r@.content_type == self@.content_type,
            r@.content_id == self@.content_id,
    {
        AttachmentBuilder { name: Some(name.to_owned()), ..self }
    }

    /// Sets the raw content bytes, replacing any earlier value.
    pub fn content(self, content: Vec<u8>) -> (r: Self)
        ensures
            r@.name == self@.name,
            r@.content == Some(content@),
            r@.content_type == self@.content_type,
            r@.content_id == self@.content_id,
    {
        AttachmentBuilder { content: Some(content), ..self }
    }

    /// Sets the MIME type, replacing any earlier value.
    pub fn content_type(self, content_type: &str) -> (r: Self)
        ensures
            r@.name == self@.name,
            r@.content == self@.content,
            r@.content_type == Some(content_type@),
            r@.content_id == self@.content_id,
    {
        AttachmentBuilder { content_type: Some(content_type.to_owned()), ..self }
    }

    /// Sets the content id used for inline references, replacing any
    /// earlier value.
    pub fn content_id(self, content_id: &str) -> (r: Self)
        ensures
            r@.name == self@.name,
            r@.content == self@.content,
            r@.content_type == self@.content_type,
            r@.content_id == Some(content_id@),
    {
        AttachmentBuilder { content_id: Some(content_id.to_owned()), ..self }
    }

    /// Checks that name, content and content type were given, and encodes
    /// the content as base64; the raw bytes do not outlive this call.
    pub fn build(self) -> (r: Result<Attachment, ClientError>)
        ensures
            r is Ok <==> (self@.name is Some && self@.content is Some && self@.content_type
                is Some),
            r matches Ok(a) ==> a@.name == self@.name.unwrap() && a@.content == base64_of(
                self@.content.unwrap(),
            ) && a@.content_type == self@.content_type.unwrap() && a@.content_id
                == self@.content_id,
            self@.name is None ==> (r matches Err(e) && e matches ClientError::Configuration(m)
                && m@ == "attachment name is required"@),
            self@.name is Some && self@.content is None ==> (r matches Err(e) && e matches
                ClientError::Configuration(m) && m@ == "attachment content is required"@),
            self@.name is Some && self@.content is Some && self@.content_type is None ==> (
            r matches Err(e) && e matches ClientError::Configuration(m) && m@
                == "attachment content type is required"@),
    {
        let name = match self.name {
            Some(n) => n,
            None => {
                return Err(ClientError::Configuration("attachment name is required".to_owned()));
            },
        };
        let content = match self.content {
            Some(c) => c,
            None => {
                return Err(
                    ClientError::Configuration("attachment content is required".to_owned()),
                );
            },
        };
        let content_type = match self.content_type {
            Some(t) => t,
            None => {
                return Err(
                    ClientError::Configuration("attachment content type is required".to_owned()),
                );
            },
        };
        let encoded = base64_encode(&content);
        Ok(Attachment { name, content: encoded, content_type, content_id: self.content_id })
    }
}

impl Attachment {
    /// A fresh builder with every field absent.
    pub fn builder() -> (r: AttachmentBuilder)
        ensures
            r@.name is None,
            r@.content is None,
            r@.content_type is None,
            r@.content_id is None,
    {
        AttachmentBuilder::new()
    }

    /// Builds an attachment from a file's content: the MIME type is looked
    /// up from the file name's extension, and the call fails when the file
    /// name has none. The caller reads the file and passes its bytes.
    pub fn from_file_bytes(name: &str, filename: &str, content: Vec<u8>) -> (r: Result<
        Attachment,
        ClientError,
    >)
        ensures
            r is Ok <==> has_extension(filename@),
            r matches Ok(a) ==> a@.name == name@ && a@.content == base64_of(content@)
                && a@.content_type == mime_of_ext(extension_of(filename@)) && a@.content_id
                is None,
            r matches Err(e) ==> (e matches ClientError::Configuration(m) && m@
                == "Invalid file extension"@),
    {
        let ext = match extension_in(filename) {
            Some(e) => e,
            None => {
                return Err(ClientError::Configuration("Invalid file extension".to_owned()));
            },
        };
        let content_type = mime_for_extension(ext);
        Self::builder().name(name).content(content).content_type(content_type.as_str()).build()
    }
}

} // verus!
