//! Startup decisions: what the program runs after loading the configuration
//! and enumerating the capture devices, and the lines the enumeration prints.

use vstd::prelude::*;
use vstd::string::StringExecFns;

use crate::text::spec_decimal;
use crate::text::u64_decimal;

verus! {

/// What the program starts after enumeration.
#[derive(Copy, Clone, Debug, PartialEq, Eq, Structural)]
pub struct StartupPlan {
    /// Open the camera and run the capture worker.
    pub start_capture: bool,
    /// Create the window and run the render loop.
    pub open_window: bool,
}

/// The plan startup decides on: everything runs unless the program was asked
/// to enumerate only. Whether enumeration failed plays no part.
pub open spec fn spec_startup_plan(enumeration_only: bool, enumeration_failed: bool) -> StartupPlan {
    StartupPlan { start_capture: !enumeration_only, open_window: !enumeration_only }
}

/// Decide what to start. `enumeration_failed` is taken, and deliberately
/// ignored: a failed device listing is reported and nothing more.
pub fn startup_plan(enumeration_only: bool, enumeration_failed: bool) -> (r: StartupPlan)
    ensures
        r == spec_startup_plan(enumeration_only, enumeration_failed),
{
    StartupPlan { start_capture: !enumeration_only, open_window: !enumeration_only }
}

/// An enumeration failure never prevents the rest of startup: the plan is the
/// same whether enumeration failed or succeeded.
pub proof fn lemma_enumeration_failure_is_harmless(enumeration_only: bool)
    ensures
        spec_startup_plan(enumeration_only, true) == spec_startup_plan(enumeration_only, false),
{
}

/// In enumeration-only mode nothing is started: no capture worker and no
/// window, whatever came of the enumeration itself.
pub proof fn lemma_enumeration_only_starts_nothing(enumeration_failed: bool)
    ensures
        !spec_startup_plan(true, enumeration_failed).start_capture,
        !spec_startup_plan(true, enumeration_failed).open_window,
{
}

/// The line printed for the device at one index.
pub open spec fn spec_device_line(i: nat, description: Seq<char>) -> Seq<char> {
    "Device at index "@ + spec_decimal(i) + ": "@ + description
}

/// The lines the device enumeration prints, one per device, in order.
pub fn device_report_lines(descriptions: &Vec<String>) -> (r: Vec<String>)
    ensures
        r@.len() == descriptions@.len(),
        forall|i: int|
            0 <= i < r@.len() ==> (#[trigger] r@[i])@ == spec_device_line(
                i as nat,
                descriptions@[i]@,
            ),
{
    let mut r: Vec<String> = Vec::new();
    let mut i: usize = 0;
    while i < descriptions.len()
        invariant
            0 <= i <= descriptions@.len(),
            r@.len() == i,
            forall|k: int|
                0 <= k < i ==> (#[trigger] r@[k])@ == spec_device_line(
                    k as nat,
                    descriptions@[k]@,
                ),
        decreases descriptions@.len() - i,
    {
        let mut line = String::from_str("Device at index ");
        line.append(u64_decimal(i as u64).as_str());
        line.append(": ");
        line.append(descriptions[i].as_str());
        proof {
            assert(line@ =~= spec_device_line(i as nat, descriptions@[i as int]@));
        }
        r.push(line);
        i = i + 1;
    }
    r
}

} // verus!
