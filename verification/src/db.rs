//! The coordinator that request handlers and the connection hook talk to.

use crate::applications::{Applications, ApplicationsView};
use vstd::prelude::*;

verus! {

/// The in-memory side of the service: the pending operations.
pub struct Db {
    pub applications: Applications,
}

impl View for Db {
    type V = ApplicationsView;

    open spec fn view(&self) -> ApplicationsView {
        self.applications@
    }
}

impl Db {
    /// The stores are the ones that `new` built.
    pub open spec fn wf(&self) -> bool {
        self.applications.wf()
    }

    /// A coordinator with nothing pending.
    pub fn new() -> (r: Self)
        ensures
            r.wf(),
            r@ == ApplicationsView::empty(),
    {
        Db { applications: Applications::new() }
    }
}

} // verus!
