//! The label store: one label per line, addressed by a 1-based class index.
use vstd::prelude::*;
use crate::abi::HostError;

verus! {

/// Whether `class` names a line of a store of `count` labels.
pub open spec fn in_label_range(class: int, count: nat) -> bool {
    1 <= class <= count
}

/// The label of `class` among `labels`, or why there is none.
pub open spec fn label_at(labels: Seq<String>, class: int) -> Result<String, HostError> {
    if in_label_range(class, labels.len()) {
        Ok(labels[class - 1])
    } else {
        Err(HostError::LabelOutOfRange)
    }
}

/// The label of `class` in `labels`: the line numbered `class`, counting from 1.
pub fn get_label(labels: &Vec<String>, class: i32) -> (r: Result<String, HostError>)
    ensures
        r == label_at(labels@, class as int),
        in_label_range(class as int, labels@.len()) ==> r == Ok::<String, HostError>(
            labels@[class - 1],
        ),
        !in_label_range(class as int, labels@.len()) ==> r == Err::<String, HostError>(
            HostError::LabelOutOfRange,
        ),
{
    if class < 1 || class as usize > labels.len() {
        return Err(HostError::LabelOutOfRange);
    }
    let i: usize = (class - 1) as usize;
    Ok(labels[i].clone())
}

} // verus!
