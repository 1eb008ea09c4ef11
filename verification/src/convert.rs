//! Converting: the candidate image types and their wire form.

use vstd::prelude::*;

verus! {

/// An image type that the service can convert to.
#[derive(Clone, Copy, Debug, PartialEq, Eq, Structural)]
pub enum Type {
    Png,
    Jpeg,
    Webp,
    /// Any type: the service picks the smallest result.
    WildCard,
}

/// One convert operation: the candidate types, in the caller's order. With
/// more than one candidate the service returns the smallest result.
#[derive(Clone, Debug, PartialEq, Eq)]
pub struct Convert {
    pub types: Vec<Type>,
}

/// A convert operation as a mathematical value.
pub struct ConvertView {
    pub types: Seq<Type>,
}

impl View for Convert {
    type V = ConvertView;

    open spec fn view(&self) -> ConvertView {
        ConvertView { types: self.types@ }
    }
}

/// The MIME name under which the service knows an image type.
pub open spec fn mime(t: Type) -> Seq<char> {
    match t {
        Type::Png => "image/png"@,
        Type::Jpeg => "image/jpeg"@,
        Type::Webp => "image/webp"@,
        Type::WildCard => "*/*"@,
    }
}

/// The MIME name of an image type as a JSON string.
pub open spec fn quoted_mime(t: Type) -> Seq<char> {
    "\""@ + mime(t) + "\""@
}

/// The MIME names of the types as JSON strings, separated by commas.
pub open spec fn mime_list(types: Seq<Type>) -> Seq<char>
    decreases types.len(),
{
    if types.len() == 0 {
        Seq::<char>::empty()
    } else if types.len() == 1 {
        quoted_mime(types[0])
    } else {
        mime_list(types.drop_last()) + ","@ + quoted_mime(types.last())
    }
}

/// The value of the `type` member. A single candidate stands as a bare
/// string; any other number of candidates stands as an array.
pub open spec fn type_field(types: Seq<Type>) -> Seq<char> {
    if types.len() == 1 {
        quoted_mime(types[0])
    } else {
        "["@ + mime_list(types) + "]"@
    }
}

/// The JSON object that stands for a convert operation.
pub open spec fn convert_json(convert: ConvertView) -> Seq<char> {
    "{\"type\":"@ + type_field(convert.types) + "}"@
}

impl Type {
    /// The MIME name under which the service knows this type.
    pub fn mime(&self) -> (r: &'static str)
        ensures
            r@ == mime(*self),
    {
        match self {
            Type::Png => "image/png",
            Type::Jpeg => "image/jpeg",
            Type::Webp => "image/webp",
            Type::WildCard => "*/*",
        }
    }

    pub(crate) fn write_quoted(&self, out: &mut String)
        ensures
            final(out)@ == old(out)@ + quoted_mime(*self),
    {
        out.append("\"");
        out.append(self.mime());
        out.append("\"");
        assert(out@ =~= old(out)@ + quoted_mime(*self));
    }
}

impl ConvertView {
    /// A convert operation names at least one candidate type.
    pub open spec fn valid(self) -> bool {
        self.types.len() >= 1
    }
}

impl Convert {
    /// Whether at least one candidate type is named.
    pub fn is_valid(&self) -> (r: bool)
        ensures
            r == self@.valid(),
    {
        self.types.len() >= 1
    }

    /// Appends the wire form of this operation.
    pub fn write_json(&self, out: &mut String)
        ensures
            final(out)@ == old(out)@ + convert_json(self@),
    {
        out.append("{\"type\":");
        let ghost head = out@;
        let n: usize = self.types.len();
        if n == 1 {
            self.types[0].write_quoted(out);
        } else {
            out.append("[");
            let ghost open = out@;
            let mut i: usize = 0;
            while i < n
                invariant
                    n == self.types.len(),
                    i <= n,
                    out@ == open + mime_list(self.types@.take(i as int)),
                decreases n - i,
            {
                let ghost before = out@;
                if i > 0 {
                    out.append(",");
                }
                self.types[i].write_quoted(out);
                proof {
                    let next = self.types@.take(i + 1);
                    assert(next.drop_last() =~= self.types@.take(i as int));
                    assert(next.last() == self.types@[i as int]);
                    if i == 0 {
                        assert(mime_list(self.types@.take(0)) =~= Seq::<char>::empty());
                        assert(out@ =~= open + mime_list(next));
                    } else {
                        assert(out@ =~= open + mime_list(next));
                    }
                }
                i = i + 1;
            }
            assert(self.types@.take(n as int) =~= self.types@);
            out.append("]");
        }
        assert(out@ =~= head + type_field(self@.types));
        out.append("}");
        assert(out@ =~= old(out)@ + convert_json(self@));
    }

    /// The wire form of this operation.
    pub fn to_json(&self) -> (r: String)
        ensures
            r@ == convert_json(self@),
    {
        let mut out = String::new();
        self.write_json(&mut out);
        assert(out@ =~= convert_json(self@));
        out
    }
}

} // verus!
