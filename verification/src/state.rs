//! The state that the application keeps for as long as it runs.

use vstd::prelude::*;
use crate::options::global::{catalogue, option_views, GlobalOptions, GlobalOptionsView};
use crate::text::same_text;

verus! {

/// The application's state: the global options it offers.
///
/// A state always holds the whole catalogue, in the catalogue's order, so an
/// option is found by its position or by its name.
pub struct ApplicationState {
    global_options_vec: Vec<GlobalOptions>,
}

impl ApplicationState {
    #[verifier::type_invariant]
    spec fn holds_catalogue(self) -> bool {
        option_views(self.global_options_vec@) == catalogue()
    }

    /// The options that the state holds.
    pub closed spec fn options(&self) -> Seq<GlobalOptionsView> {
        option_views(self.global_options_vec@)
    }

    /// The global options, in the catalogue's order.
    #[must_use]
    pub fn global_options_vec(&self) -> (out: &Vec<GlobalOptions>)
        ensures
            option_views(out@) == self.options(),
            option_views(out@) == catalogue(),
    {
        proof {
            use_type_invariant(self);
        }
        &self.global_options_vec
    }

    /// The option called `name`, if the catalogue has one.
    pub fn global_option(&self, name: &str) -> (out: Option<&GlobalOptions>)
        ensures
            match out {
                Some(found) => exists|i: int|
                    0 <= i < catalogue().len() && #[trigger] catalogue()[i] == found@
                        && found@.name == name@,
                None => forall|i: int|
                    0 <= i < catalogue().len() ==> #[trigger] catalogue()[i].name != name@,
            },
    {
        proof {
            use_type_invariant(self);
        }
        let mut i: usize = 0;
        while i < self.global_options_vec.len()
            invariant
                i <= self.global_options_vec.len(),
                option_views(self.global_options_vec@) == catalogue(),
                forall|k: int| 0 <= k < i ==> #[trigger] catalogue()[k].name != name@,
            decreases self.global_options_vec.len() - i,
        {
            let candidate = &self.global_options_vec[i];
            assert(catalogue()[i as int] == candidate@);
            if same_text(candidate.name(), name) {
                return Some(candidate);
            }
            i = i + 1;
        }
        None
    }
}

impl Default for ApplicationState {
    fn default() -> (out: Self)
        ensures
            out.options() == catalogue(),
    {
        ApplicationState { global_options_vec: GlobalOptions::all() }
    }
}

} // verus!
