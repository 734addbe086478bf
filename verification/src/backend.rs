//! The two metering strategies and the choice between them.

use vstd::prelude::*;

verus! {

/// The name under which the counter is exported where the caller names none.
pub const DEFAULT_GLOBAL_NAME: &'static str = "gas_left";

/// The module from which the host's charging function is imported.
pub const HOST_MODULE: &'static str = "env";

/// The name of the host's charging function.
pub const HOST_FUNCTION: &'static str = "gas_charge";

/// How the instrumented module accounts for the gas it is charged.
#[derive(Debug, PartialEq, Eq)]
pub enum Backend {
    /// The module keeps the gas that is left in a mutable 64-bit global,
    /// exported under `global_name`, which the inserted code decrements.
    CounterGlobal { global_name: String },
    /// The inserted code calls the imported function `module`.`function`
    /// with each charge; the host keeps count.
    HostCallout { module: String, function: String },
}

/// A backend in specifications: its names as sequences of characters.
pub enum BackendView {
    CounterGlobal { global_name: Seq<char> },
    HostCallout { module: Seq<char>, function: Seq<char> },
}

impl View for Backend {
    type V = BackendView;

    open spec fn view(&self) -> BackendView {
        match self {
            Backend::CounterGlobal { global_name } => BackendView::CounterGlobal {
                global_name: global_name@,
            },
            Backend::HostCallout { module, function } => BackendView::HostCallout {
                module: module@,
                function: function@,
            },
        }
    }
}

/// The backend that a configuration asks for: the host function
/// `gas_charge` of the module `env` where host-side metering is requested,
/// else the counter global under the configured name, or under `gas_left`
/// where none is configured.
pub open spec fn configured_backend(host_callout: bool, global_name: Option<Seq<char>>)
    -> BackendView {
    if host_callout {
        BackendView::HostCallout { module: HOST_MODULE@, function: HOST_FUNCTION@ }
    } else {
        BackendView::CounterGlobal {
            global_name: match global_name {
                Some(name) => name,
                None => DEFAULT_GLOBAL_NAME@,
            },
        }
    }
}

/// Selects the one backend that the configuration asks for. A configured
/// global name has no effect on host-side metering.
pub fn select_backend(host_callout: bool, global_name: Option<&str>) -> (backend: Backend)
    ensures
        backend@ == configured_backend(
            host_callout,
            match global_name {
                Some(name) => Some(name@),
                None => None,
            },
        ),
{
    if host_callout {
        Backend::HostCallout { module: HOST_MODULE.to_owned(), function: HOST_FUNCTION.to_owned() }
    } else {
        let name = match global_name {
            Some(name) => name,
            None => DEFAULT_GLOBAL_NAME,
        };
        Backend::CounterGlobal { global_name: name.to_owned() }
    }
}

} // verus!
