//! The write-once cell that holds a schema's models.

use vstd::prelude::*;
use once_cell::unsync::OnceCell;
use crate::graph::Model;

verus! {

/// `once_cell::unsync::OnceCell`, a cell that is empty or holds one value.
#[verifier::external_type_specification]
#[verifier::external_body]
#[verifier::reject_recursive_types(T)]
pub struct ExOnceCell<T>(OnceCell<T>);

/// What a cell of models holds: `None` while it is empty, else the models in
/// their order.
pub uninterp spec fn cell_contents(cell: OnceCell<Vec<Model>>) -> Option<Seq<Model>>;

/// `OnceCell::new`: the cell it returns is empty.
#[verifier::external_body]
pub(crate) fn empty_cell() -> (cell: OnceCell<Vec<Model>>)
    ensures
        cell_contents(cell) is None,
{
    OnceCell::new()
}

/// `OnceCell::set`: an empty cell takes the models and the call returns
/// `Ok`; a full cell stays as it is and the models come back in `Err`.
///
/// The cell is taken by `&mut` so that the change is visible to the caller.
#[verifier::external_body]
pub(crate) fn fill_cell(cell: &mut OnceCell<Vec<Model>>, models: Vec<Model>) -> (refused: Result<
    (),
    Vec<Model>,
>)
    ensures
        match refused {
            Ok(_) => cell_contents(*old(cell)) is None && cell_contents(*final(cell)) == Some(
                models@,
            ),
            Err(back) => cell_contents(*old(cell)) is Some && back == models && *final(cell)
                == *old(cell),
        },
{
    cell.set(models)
}

/// `OnceCell::get`: the models of a full cell, `None` for an empty one.
#[verifier::external_body]
pub(crate) fn read_cell(cell: &OnceCell<Vec<Model>>) -> (models: Option<&Vec<Model>>)
    ensures
        match models {
            Some(held) => cell_contents(*cell) == Some(held@),
            None => cell_contents(*cell) is None,
        },
{
    cell.get()
}

} // verus!
