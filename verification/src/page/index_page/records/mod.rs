use crate::buffer::ByteBuf;
use vstd::prelude::*;

pub mod new;

verus! {

/// A record of an index page, by row format. Only the compact format is
/// decoded.
pub enum Row<B: ByteBuf> {
    New(new::row::Row<B>),
}

impl<B: ByteBuf> Row<B> {
    /// The record in the compact format.
    pub open spec fn inner(&self) -> new::row::Row<B> {
        match *self {
            Row::New(row) => row,
        }
    }

    /// The record in the compact format.
    pub fn as_new(&self) -> (r: &new::row::Row<B>)
        ensures
            *r == self.inner(),
    {
        match self {
            Row::New(row) => row,
        }
    }
}

} // verus!
