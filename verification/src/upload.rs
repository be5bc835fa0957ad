//! Building the multipart request body, and the local precondition check
//! that runs before any network is attempted.
//!
//! The body is described as plain data: one text part per configured form
//! field, in their configured order, and exactly one file part, named by
//! the configuration's `form_file` field, carrying the file's bytes and
//! its base name. The transport that actually sends it lives outside the
//! library.

use vstd::prelude::*;

use crate::config::Config;
use crate::config::ConfigView;

verus! {

/// One part of a multipart form body.
pub enum FormPart {
    /// A named text field with a static value.
    TextPart { name: String, value: String },
    /// The one file part: the field name, the filename metadata, and the
    /// file's raw bytes.
    FilePart { name: String, filename: String, bytes: Vec<u8> },
}

/// The mathematical shape of a [`FormPart`].
#[verifier::ext_equal]
pub ghost enum FormPartView {
    Text { name: Seq<char>, value: Seq<char> },
    File { name: Seq<char>, filename: Seq<char>, bytes: Seq<u8> },
}

impl View for FormPart {
    type V = FormPartView;

    open spec fn view(&self) -> FormPartView {
        match self {
            FormPart::TextPart { name, value } => FormPartView::Text { name: name@, value: value@ },
            FormPart::FilePart { name, filename, bytes } => FormPartView::File {
                name: name@,
                filename: filename@,
                bytes: bytes@,
            },
        }
    }
}

/// The views of a sequence of form parts.
pub open spec fn parts_view(parts: Seq<FormPart>) -> Seq<FormPartView> {
    parts.map_values(|p: FormPart| p@)
}

/// The multipart body a configuration asks for: its form fields as text
/// parts, in order, then exactly one file part under its `form_file` name.
pub open spec fn spec_form_parts(c: ConfigView, filename: Seq<char>, bytes: Seq<u8>) -> Seq<
    FormPartView,
> {
    c.form.map_values(|p: (Seq<char>, Seq<char>)| FormPartView::Text { name: p.0, value: p.1 })
        .push(FormPartView::File { name: c.form_file, filename, bytes })
}

/// Build the multipart body for one upload: every configured form field
/// becomes a text part, and the file's bytes become the one file part.
pub fn build_form_parts(config: &Config, filename: String, bytes: Vec<u8>) -> (r: Vec<FormPart>)
    ensures
        parts_view(r@) == spec_form_parts(config@, filename@, bytes@),
{
    let ghost text_total = config@.form.map_values(
        |p: (Seq<char>, Seq<char>)| FormPartView::Text { name: p.0, value: p.1 },
    );
    let mut r: Vec<FormPart> = Vec::new();
    let mut i: usize = 0;
    proof {
        assert(parts_view(r@) =~= text_total.take(0));
    }
    while i < config.form.len()
        invariant
            i <= config.form@.len(),
            text_total == config@.form.map_values(
                |p: (Seq<char>, Seq<char>)| FormPartView::Text { name: p.0, value: p.1 },
            ),
            text_total.len() == config.form@.len(),
            parts_view(r@) == text_total.take(i as int),
        decreases config.form@.len() - i,
    {
        let ghost old_view = parts_view(r@);
        let name = config.form[i].0.clone();
        let value = config.form[i].1.clone();
        r.push(FormPart::TextPart { name, value });
        proof {
            assert(parts_view(r@) =~= old_view.push(text_total[i as int]));
            assert(text_total.take(i as int).push(text_total[i as int]) =~= text_total.take(
                i as int + 1,
            ));
        }
        i += 1;
    }
    proof {
        assert(text_total.take(i as int) =~= text_total);
    }
    let ghost before_file = parts_view(r@);
    r.push(FormPart::FilePart { name: config.form_file.clone(), filename, bytes });
    proof {
        assert(parts_view(r@) =~= before_file.push(
            FormPartView::File { name: config@.form_file, filename: filename@, bytes: bytes@ },
        ));
    }
    r
}

/// The local precondition check of an upload: a path that does not name a
/// regular file is rejected before any request is built or sent, with the
/// reason handed back to the driver.
pub fn local_file_error(path: &str, is_file: bool) -> (r: Option<String>)
    ensures
        match r {
            None => is_file,
            Some(m) => !is_file && m@ == "`"@ + path@ + "` is not a file"@,
        },
{
    if is_file {
        None
    } else {
        Some("`".to_owned().concat(path).concat("` is not a file"))
    }
}

} // verus!
