use vstd::prelude::*;

verus! {

/// The target of an operator session: the raw target, or a copy of it that
/// the operator made. Each is named by its resource name.
#[derive(Debug, Clone, PartialEq, Eq)]
pub enum OperatorSessionTarget {
    Raw(String),
    Copied(String),
}

/// Why an operator session cannot go ahead.
#[derive(Debug, Clone, PartialEq, Eq)]
pub enum OperatorApiError {
    /// No target could be made of the target configuration.
    InvalidTarget,
    /// The receiving side of the session's messages was dropped.
    DaemonReceiverDropped,
    /// Other sessions hold port locks on the target.
    ConcurrentStealAbort,
    /// The operator does not offer a feature the configuration asks for.
    UnsupportedFeature { feature: String, operator_version: String },
}

/// Checks the configuration against what the operator offers: copying the
/// target needs an operator that says it can.
pub fn check_config(
    copy_target: bool,
    copy_target_enabled: Option<bool>,
    operator_version: &String,
) -> (r: Result<(), OperatorApiError>)
    ensures
        copy_target && copy_target_enabled != Some(true) ==> (r matches Err(
            OperatorApiError::UnsupportedFeature { feature, operator_version: v },
        ) && feature@ == "copy target"@ && v@ == operator_version@),
        !(copy_target && copy_target_enabled != Some(true)) ==> r is Ok,
{
    if copy_target {
        let enabled = match copy_target_enabled {
            Some(b) => b,
            None => false,
        };
        if !enabled {
            return Err(
                OperatorApiError::UnsupportedFeature {
                    feature: "copy target".to_owned(),
                    operator_version: operator_version.clone(),
                },
            );
        }
    }
    Ok(())
}

/// Decides on the port locks of a raw target. `lookup` is `None` when the
/// locks could not be fetched (nothing to hold against the session), else
/// the number of locks listed, `None` for no list.
pub fn check_no_port_locks(lookup: Option<Option<usize>>) -> (r: Result<(), OperatorApiError>)
    ensures
        r == (match lookup {
            Some(Some(n)) if n > 0 => Err(OperatorApiError::ConcurrentStealAbort),
            _ => Ok::<(), OperatorApiError>(()),
        }),
{
    match lookup {
        Some(Some(n)) if n > 0 => Err(OperatorApiError::ConcurrentStealAbort),
        _ => Ok(()),
    }
}

} // verus!
