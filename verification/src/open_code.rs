//! The `vscode-remote` URI that opens a folder of a pod's container in the
//! editor, and the command line that hands it to the editor.

use vstd::prelude::*;
use vstd::utf8::encode_utf8;
use crate::pod::opt_view;

verus! {

/// Where to open the editor: the Kubernetes context, the pod, its namespace,
/// the container and its image, and the folder inside the container.
pub struct OpenCode {
    pub context: Option<String>,
    pub pod_name: Option<String>,
    pub namespace: Option<String>,
    pub container_name: Option<String>,
    pub container_image: Option<String>,
    pub path: Option<String>,
}

/// The abstract value of an [`OpenCode`].
pub struct OpenCodeView {
    pub context: Option<Seq<char>>,
    pub pod_name: Option<Seq<char>>,
    pub namespace: Option<Seq<char>>,
    pub container_name: Option<Seq<char>>,
    pub container_image: Option<Seq<char>>,
    pub path: Option<Seq<char>>,
}

impl View for OpenCode {
    type V = OpenCodeView;

    open spec fn view(&self) -> OpenCodeView {
        OpenCodeView {
            context: opt_view(self.context),
            pod_name: opt_view(self.pod_name),
            namespace: opt_view(self.namespace),
            container_name: opt_view(self.container_name),
            container_image: opt_view(self.container_image),
            path: opt_view(self.path),
        }
    }
}

/// Bytes that the form-urlencoded serializer copies as they are:
/// ASCII letters, digits, `*`, `-`, `.` and `_`.
pub open spec fn form_unreserved(b: u8) -> bool {
    ||| b == 42
    ||| b == 45
    ||| b == 46
    ||| 48 <= b <= 57
    ||| 65 <= b <= 90
    ||| b == 95
    ||| 97 <= b <= 122
}

/// The upper-case hexadecimal digit of `d` (`0 <= d < 16`).
pub open spec fn hex_digit_upper(d: int) -> char {
    if d < 10 {
        (48 + d) as char
    } else {
        (55 + d) as char
    }
}

/// The serialization of one byte: itself when unreserved, `+` for a space,
/// and `%XX` with upper-case hex digits otherwise.
pub open spec fn form_encode_byte(b: u8) -> Seq<char> {
    if form_unreserved(b) {
        seq![b as char]
    } else if b == 32 {
        seq!['+']
    } else {
        seq!['%', hex_digit_upper(b as int / 16), hex_digit_upper(b as int % 16)]
    }
}

/// The `application/x-www-form-urlencoded` byte serialization of `bytes`.
pub open spec fn form_urlencoded(bytes: Seq<u8>) -> Seq<char>
    decreases bytes.len(),
{
    if bytes.len() == 0 {
        Seq::empty()
    } else {
        form_encode_byte(bytes[0]) + form_urlencoded(bytes.drop_first())
    }
}

/// Calls `url::form_urlencoded::byte_serialize` and joins the pieces it
/// yields. Trusted: the result is the form-urlencoded serialization of the
/// bytes, byte by byte, as that crate's source does it (unreserved bytes kept,
/// space to `+`, every other byte to `%XX` in upper case).
#[verifier::external_body]
fn byte_serialize_to_string(bytes: &[u8]) -> (res: String)
    ensures
        res@ == form_urlencoded(bytes@),
{
    url::form_urlencoded::byte_serialize(bytes).collect()
}

/// `key` followed by the value, or nothing when there is no value.
pub open spec fn uri_segment(key: Seq<char>, value: Option<Seq<char>>) -> Seq<char> {
    match value {
        Some(v) => key + v,
        None => Seq::empty(),
    }
}

/// The form-urlencoded UTF-8 bytes of an optional image name.
pub open spec fn encoded_image(image: Option<Seq<char>>) -> Option<Seq<char>> {
    match image {
        Some(i) => Some(form_urlencoded(encode_utf8(i))),
        None => None,
    }
}

/// The URI that opens `oc` in the editor: the `k8s-container` authority,
/// then each present field as `+key=value` in a fixed order (the image
/// form-urlencoded), then the folder path.
pub open spec fn folder_uri(oc: OpenCodeView) -> Seq<char> {
    "vscode-remote://k8s-container"@
        + uri_segment("+context="@, oc.context)
        + uri_segment("+podname="@, oc.pod_name)
        + uri_segment("+namespace="@, oc.namespace)
        + uri_segment("+name="@, oc.container_name)
        + uri_segment("+image="@, encoded_image(oc.container_image))
        + uri_segment(""@, oc.path)
}

/// Appends `key` and the value to `s` when there is a value.
fn append_segment(s: &mut String, key: &str, value: &Option<String>)
    ensures
        final(s)@ == old(s)@ + uri_segment(key@, opt_view(*value)),
{
    match value {
        Some(v) => {
            s.append(key);
            s.append(v.as_str());
        },
        None => {
            assert(old(s)@ + Seq::<char>::empty() == old(s)@);
        },
    }
}

/// The characters that the form-urlencoded serializer can produce: ASCII
/// letters and digits, `*`, `-`, `.`, `_`, `+` and `%`.
pub open spec fn form_output_char(c: char) -> bool {
    ||| c == '*'
    ||| c == '-'
    ||| c == '.'
    ||| c == '_'
    ||| c == '+'
    ||| c == '%'
    ||| ('0' <= c && c <= '9')
    ||| ('A' <= c && c <= 'Z')
    ||| ('a' <= c && c <= 'z')
}

proof fn lemma_form_encode_byte_output(b: u8)
    ensures
        forall|i: int| 0 <= i < form_encode_byte(b).len() ==> form_output_char(#[trigger] form_encode_byte(b)[i]),
{
    if !form_unreserved(b) && b != 32 {
        let hi = b as int / 16;
        let lo = b as int % 16;
        assert(0 <= hi < 16 && 0 <= lo < 16);
        assert(form_output_char(hex_digit_upper(hi)));
        assert(form_output_char(hex_digit_upper(lo)));
    }
}

/// The image part of the URI cannot break it up: the form-urlencoded
/// serialization of any bytes holds only letters, digits, `*`, `-`, `.`,
/// `_`, `+` and `%`, so never a `/`, `:`, `@` or `=`.
pub proof fn lemma_form_urlencoded_output(bytes: Seq<u8>)
    ensures
        forall|i: int| 0 <= i < form_urlencoded(bytes).len() ==> form_output_char(#[trigger] form_urlencoded(bytes)[i]),
    decreases bytes.len(),
{
    if bytes.len() > 0 {
        lemma_form_encode_byte_output(bytes[0]);
        lemma_form_urlencoded_output(bytes.drop_first());
        let head = form_encode_byte(bytes[0]);
        let tail = form_urlencoded(bytes.drop_first());
        assert forall|i: int| 0 <= i < form_urlencoded(bytes).len() implies form_output_char(#[trigger] form_urlencoded(bytes)[i]) by {
            if i < head.len() {
                assert(form_urlencoded(bytes)[i] == head[i]);
            } else {
                assert(form_urlencoded(bytes)[i] == tail[i - head.len()]);
            }
        }
    }
}

/// Every editor URI starts with the `k8s-container` authority, and with no
/// field set it is that authority alone.
pub proof fn lemma_folder_uri_base(oc: OpenCodeView)
    ensures
        folder_uri(oc).len() >= "vscode-remote://k8s-container"@.len(),
        folder_uri(oc).subrange(0, "vscode-remote://k8s-container"@.len() as int)
            == "vscode-remote://k8s-container"@,
        (oc.context is None && oc.pod_name is None && oc.namespace is None
            && oc.container_name is None && oc.container_image is None && oc.path is None)
            ==> folder_uri(oc) == "vscode-remote://k8s-container"@,
{
    let base = "vscode-remote://k8s-container"@;
    let rest = uri_segment("+context="@, oc.context) + uri_segment("+podname="@, oc.pod_name)
        + uri_segment("+namespace="@, oc.namespace) + uri_segment("+name="@, oc.container_name)
        + uri_segment("+image="@, encoded_image(oc.container_image)) + uri_segment(""@, oc.path);
    assert(folder_uri(oc) == base + rest);
    assert((base + rest).subrange(0, base.len() as int) == base);
    if oc.context is None && oc.pod_name is None && oc.namespace is None
        && oc.container_name is None && oc.container_image is None && oc.path is None {
        assert(rest == Seq::<char>::empty());
        assert(base + rest == base);
    }
}

impl OpenCode {
    /// The `vscode-remote` URI that opens this folder in the editor.
    pub fn generate_path(&self) -> (uri: String)
        ensures
            uri@ == folder_uri(self@),
    {
        let mut base_uri = String::from_str("vscode-remote://k8s-container");
        append_segment(&mut base_uri, "+context=", &self.context);
        append_segment(&mut base_uri, "+podname=", &self.pod_name);
        append_segment(&mut base_uri, "+namespace=", &self.namespace);
        append_segment(&mut base_uri, "+name=", &self.container_name);
        let encoded = match &self.container_image {
            Some(image) => Some(byte_serialize_to_string(image.as_str().as_bytes())),
            None => None,
        };
        append_segment(&mut base_uri, "+image=", &encoded);
        append_segment(&mut base_uri, "", &self.path);
        base_uri
    }

    /// The shell command that opens this folder in the editor:
    /// `code --folder-uri ` followed by the URI.
    pub fn open_command(&self) -> (cmd: String)
        ensures
            cmd@ == "code --folder-uri "@ + folder_uri(self@),
    {
        let uri = self.generate_path();
        let mut cmd = String::from_str("code --folder-uri ");
        cmd.append(uri.as_str());
        cmd
    }
}

} // verus!
