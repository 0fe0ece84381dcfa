//! The verbs of an image.

use crate::backend::{begin, opening, Subject, SubjectView, Turn, Verb};
use crate::config::Config;
use crate::model::Image;
use vstd::prelude::*;

verus! {

/// Starts the creation of an image by its backend. The script's
/// parameters are merged into the image, which is then saved.
pub fn script_create(conf: &Config, image: Image) -> (r: Turn)
    ensures
        r@ == opening(*conf, Verb::ImageCreate, SubjectView::Image(image@), None),
{
    begin(conf, Verb::ImageCreate, Subject::Image(image), None)
}

/// Starts the deletion of an image by its backend.
pub fn script_delete(conf: &Config, image: Image) -> (r: Turn)
    ensures
        r@ == opening(*conf, Verb::ImageDelete, SubjectView::Image(image@), None),
{
    begin(conf, Verb::ImageDelete, Subject::Image(image), None)
}

} // verus!
