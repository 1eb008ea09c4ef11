//! Resizing: the method, the target dimensions, and their wire form.

use vstd::prelude::*;
use crate::text::decimal;
use crate::text::push_decimal;

verus! {

/// The way an image is brought to its new dimensions.
#[derive(Clone, Copy, Debug, PartialEq, Eq, Structural)]
pub enum Method {
    /// Scales the image down proportionally to the one dimension given.
    Scale,
    /// Scales the image down proportionally so that it fits within both
    /// dimensions.
    Fit,
    /// Scales the image proportionally and crops it to exactly both
    /// dimensions.
    Cover,
    /// Like `Cover`, with detection of free-standing objects on plain
    /// backgrounds.
    Thumb,
}

/// One resize operation.
#[derive(Clone, Copy, Debug, PartialEq, Eq)]
pub struct Resize {
    pub method: Method,
    pub width: Option<u32>,
    pub height: Option<u32>,
}

/// The name under which the service knows a method.
pub open spec fn method_name(method: Method) -> Seq<char> {
    match method {
        Method::Scale => "scale"@,
        Method::Fit => "fit"@,
        Method::Cover => "cover"@,
        Method::Thumb => "thumb"@,
    }
}

/// A dimension as a member after the first: a comma, the name in quotation
/// marks, a colon and the number; nothing at all for a dimension that is not
/// set, so that the service never sees a `null`.
pub open spec fn dimension_member(name: Seq<char>, value: Option<u32>) -> Seq<char> {
    match value {
        Some(n) => ",\""@ + name + "\":"@ + decimal(n as nat),
        None => Seq::<char>::empty(),
    }
}

/// The JSON object that stands for a resize operation: the method, then
/// the width and the height as far as they are set.
pub open spec fn resize_json(resize: Resize) -> Seq<char> {
    "{\"method\":\""@ + method_name(resize.method) + "\""@ + dimension_member(
        "width"@,
        resize.width,
    ) + dimension_member("height"@, resize.height) + "}"@
}

impl Method {
    /// The name under which the service knows this method.
    pub fn name(&self) -> (r: &'static str)
        ensures
            r@ == method_name(*self),
    {
        match self {
            Method::Scale => "scale",
            Method::Fit => "fit",
            Method::Cover => "cover",
            Method::Thumb => "thumb",
        }
    }
}

impl Resize {
    /// Whether the dimensions suit the method: `Scale` takes exactly one of
    /// width and height, the other methods take both.
    pub open spec fn valid(self) -> bool {
        match self.method {
            Method::Scale => self.width.is_some() != self.height.is_some(),
            _ => self.width.is_some() && self.height.is_some(),
        }
    }

    /// Whether the dimensions suit the method.
    pub fn is_valid(&self) -> (r: bool)
        ensures
            r == self.valid(),
    {
        match self.method {
            Method::Scale => self.width.is_some() != self.height.is_some(),
            _ => self.width.is_some() && self.height.is_some(),
        }
    }

    /// Appends the wire form of this operation.
    pub fn write_json(&self, out: &mut String)
        ensures
            final(out)@ == old(out)@ + resize_json(*self),
    {
        out.append("{\"method\":\"");
        out.append(self.method.name());
        out.append("\"");
        let ghost head = out@;
        match self.width {
            Some(n) => {
                out.append(",\"");
                out.append("width");
                out.append("\":");
                push_decimal(out, n);
            },
            None => {},
        }
        assert(out@ =~= head + dimension_member("width"@, self.width));
        let ghost middle = out@;
        match self.height {
            Some(n) => {
                out.append(",\"");
                out.append("height");
                out.append("\":");
                push_decimal(out, n);
            },
            None => {},
        }
        assert(out@ =~= middle + dimension_member("height"@, self.height));
        out.append("}");
        assert(out@ =~= old(out)@ + resize_json(*self));
    }

    /// The wire form of this operation.
    pub fn to_json(&self) -> (r: String)
        ensures
            r@ == resize_json(*self),
    {
        let mut out = String::new();
        self.write_json(&mut out);
        assert(out@ =~= resize_json(*self));
        out
    }
}

} // verus!
