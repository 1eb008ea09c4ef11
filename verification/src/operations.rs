//! The operations that a job has recorded and not yet sent: at most one of
//! each kind.

use vstd::prelude::*;
use crate::convert::convert_json;
use crate::convert::Convert;
use crate::convert::ConvertView;
use crate::error::TinifyError;
use crate::resize::resize_json;
use crate::resize::Resize;
use crate::transform::transform_json;
use crate::transform::Transform;
use crate::transform::TransformView;

verus! {

/// The pending operations of a job.
#[derive(Clone, Debug, PartialEq, Eq)]
pub struct Operations {
    pub convert: Option<Convert>,
    pub resize: Option<Resize>,
    pub transform: Option<Transform>,
}

/// The pending operations as a mathematical value.
pub struct OperationsView {
    pub convert: Option<ConvertView>,
    pub resize: Option<Resize>,
    pub transform: Option<TransformView>,
}

impl View for Operations {
    type V = OperationsView;

    open spec fn view(&self) -> OperationsView {
        OperationsView {
            convert: match self.convert {
                Some(c) => Some(c@),
                None => None,
            },
            resize: self.resize,
            transform: match self.transform {
                Some(t) => Some(t@),
                None => None,
            },
        }
    }
}

/// One member of a JSON object: the name in quotation marks, a colon, and
/// the value.
pub open spec fn member(name: Seq<char>, value: Seq<char>) -> Seq<char> {
    "\""@ + name + "\":"@ + value
}

/// The members that stand for the pending operations: `convert`, `resize`
/// and `transform`, in this order, each only where it is pending.
pub open spec fn members(ops: OperationsView) -> Seq<Seq<char>> {
    let convert = match ops.convert {
        Some(c) => seq![member("convert"@, convert_json(c))],
        None => Seq::<Seq<char>>::empty(),
    };
    let resize = match ops.resize {
        Some(r) => seq![member("resize"@, resize_json(r))],
        None => Seq::<Seq<char>>::empty(),
    };
    let transform = match ops.transform {
        Some(t) => seq![member("transform"@, transform_json(t))],
        None => Seq::<Seq<char>>::empty(),
    };
    convert + resize + transform
}

/// Pieces of text with a comma between each two.
pub open spec fn joined(parts: Seq<Seq<char>>) -> Seq<char>
    decreases parts.len(),
{
    if parts.len() == 0 {
        Seq::<char>::empty()
    } else if parts.len() == 1 {
        parts[0]
    } else {
        joined(parts.drop_last()) + ","@ + parts.last()
    }
}

/// The body of the request that carries the pending operations: one JSON
/// object with a member for each of them.
pub open spec fn operations_json(ops: OperationsView) -> Seq<char> {
    "{"@ + joined(members(ops)) + "}"@
}

impl OperationsView {
    /// No operation is pending.
    pub open spec fn is_empty(self) -> bool {
        self.convert is None && self.resize is None && self.transform is None
    }

    /// A transform is pending without a convert beside it.
    pub open spec fn lone_transform(self) -> bool {
        self.transform is Some && self.convert is None
    }

    /// The record without any pending operation.
    pub open spec fn empty() -> OperationsView {
        OperationsView { convert: None, resize: None, transform: None }
    }
}

/// Appends a comma where a member has been written before, then the name of
/// the next member and its colon.
fn open_member(out: &mut String, name: &str, Ghost(head): Ghost<Seq<char>>, Ghost(done): Ghost<Seq<Seq<char>>>, any: bool)
    requires
        old(out)@ == head + joined(done),
        any == (done.len() > 0),
    ensures
        forall|value: Seq<char>| #[trigger]
            (final(out)@ + value) == head + joined(done.push(member(name@, value))),
{
    if any {
        out.append(",");
    }
    out.append("\"");
    out.append(name);
    out.append("\":");
    assert forall|value: Seq<char>| #[trigger]
        (out@ + value) == head + joined(done.push(member(name@, value))) by {
        let next = done.push(member(name@, value));
        assert(next.drop_last() =~= done);
        assert(next.last() == member(name@, value));
        if done.len() == 0 {
            assert(joined(done) =~= Seq::<char>::empty());
        }
        assert(out@ + value =~= head + joined(next));
    }
}

impl Operations {
    /// The record without any pending operation.
    pub fn new() -> (r: Operations)
        ensures
            r@ == OperationsView::empty(),
    {
        Operations { convert: None, resize: None, transform: None }
    }

    /// Whether no operation is pending.
    pub fn is_empty(&self) -> (r: bool)
        ensures
            r == self@.is_empty(),
    {
        self.convert.is_none() && self.resize.is_none() && self.transform.is_none()
    }

    /// Whether a transform is pending without a convert beside it.
    pub fn lone_transform(&self) -> (r: bool)
        ensures
            r == self@.lone_transform(),
    {
        self.transform.is_some() && self.convert.is_none()
    }

    /// The body of the request that carries these operations.
    pub fn to_json(&self) -> (r: Result<String, TinifyError>)
        ensures
            r is Ok,
            r->Ok_0@ == operations_json(self@),
    {
        let mut out = String::new();
        out.append("{");
        let ghost head = out@;
        let ghost mut done = Seq::<Seq<char>>::empty();
        let mut any = false;
        assert(out@ =~= head + joined(done));
        match &self.convert {
            Some(c) => {
                open_member(&mut out, "convert", Ghost(head), Ghost(done), any);
                let ghost before = out@;
                c.write_json(&mut out);
                proof {
                    assert(out@ == before + convert_json(c@));
                    done = done.push(member("convert"@, convert_json(c@)));
                }
                any = true;
            },
            None => {},
        }
        match &self.resize {
            Some(r) => {
                open_member(&mut out, "resize", Ghost(head), Ghost(done), any);
                let ghost before = out@;
                r.write_json(&mut out);
                proof {
                    assert(out@ == before + resize_json(*r));
                    done = done.push(member("resize"@, resize_json(*r)));
                }
                any = true;
            },
            None => {},
        }
        match &self.transform {
            Some(t) => {
                open_member(&mut out, "transform", Ghost(head), Ghost(done), any);
                let ghost before = out@;
                match t.write_json(&mut out) {
                    Ok(()) => {},
                    Err(e) => {
                        return Err(e);
                    },
                }
                proof {
                    assert(out@ == before + transform_json(t@));
                    done = done.push(member("transform"@, transform_json(t@)));
                }
                any = true;
            },
            None => {},
        }
        assert(done =~= members(self@));
        out.append("}");
        Ok(out)
    }
}

} // verus!
