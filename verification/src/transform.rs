//! Transforming: the background that replaces transparency.

use vstd::prelude::*;
use crate::error::TinifyError;
use crate::text::json_quoted;
use crate::text::quote;

verus! {

/// One transform operation. The background is a hex value such as
/// `#000000`, or one of the names `white` and `black`; it fills the
/// transparent parts of an image that is converted to a type without
/// transparency.
#[derive(Clone, Debug, PartialEq, Eq)]
pub struct Transform {
    pub background: String,
}

/// A transform operation as a mathematical value.
pub struct TransformView {
    pub background: Seq<char>,
}

impl View for Transform {
    type V = TransformView;

    open spec fn view(&self) -> TransformView {
        TransformView { background: self.background@ }
    }
}

/// The JSON object that stands for a transform operation.
pub open spec fn transform_json(transform: TransformView) -> Seq<char> {
    "{\"background\":"@ + json_quoted(transform.background) + "}"@
}

impl Transform {
    /// Appends the wire form of this operation.
    pub fn write_json(&self, out: &mut String) -> (r: Result<(), TinifyError>)
        ensures
            r is Ok,
            final(out)@ == old(out)@ + transform_json(self@),
    {
        out.append("{\"background\":");
        match quote(self.background.as_str()) {
            Ok(text) => {
                out.append(text.as_str());
                out.append("}");
                assert(out@ =~= old(out)@ + transform_json(self@));
                Ok(())
            },
            Err(e) => Err(TinifyError::JsonParseError(e)),
        }
    }

    /// The wire form of this operation.
    pub fn to_json(&self) -> (r: Result<String, TinifyError>)
        ensures
            r is Ok,
            r->Ok_0@ == transform_json(self@),
    {
        let mut out = String::new();
        match self.write_json(&mut out) {
            Ok(()) => {
                assert(out@ =~= transform_json(self@));
                Ok(out)
            },
            Err(e) => Err(e),
        }
    }
}

} // verus!
