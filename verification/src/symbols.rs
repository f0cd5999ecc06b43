//! Symbol-table binding: given the outcome of looking up each entry point
//! by name in the loaded library, decide whether binding succeeds, and with
//! which failure message when it does not.
//!
//! The engine exports eight required entry points and one optional one
//! (`mpv_set_log_level`).  Binding fails as a unit if any required lookup
//! failed, naming the first missing entry point; the optional entry point's
//! absence is merely recorded.

use vstd::prelude::*;
use vstd::string::StringExecFns;

verus! {

/// The shape of a successfully bound symbol table.  All eight required
/// entry points are present by construction; only the presence of the
/// optional log-level entry point varies.  The function pointers themselves
/// live outside the verified core.
#[derive(Clone, Copy, PartialEq, Eq, Structural, Debug)]
pub struct SymbolTableShape {
    pub has_set_log_level: bool,
}

/// The native name of required entry point `i`, in lookup order.
pub open spec fn required_name_spec(i: int) -> Seq<char> {
    if i == 0 {
        "mpv_create"@
    } else if i == 1 {
        "mpv_destroy"@
    } else if i == 2 {
        "mpv_initialize"@
    } else if i == 3 {
        "mpv_set_option"@
    } else if i == 4 {
        "mpv_set_option_string"@
    } else if i == 5 {
        "mpv_set_property"@
    } else if i == 6 {
        "mpv_get_property"@
    } else {
        "mpv_command"@
    }
}

/// The eight required entry-point names, in the order they are looked up.
pub fn required_symbol_names() -> (r: Vec<&'static str>)
    ensures
        r@.len() == 8,
        forall|i: int| 0 <= i < 8 ==> (#[trigger] r@[i])@ == required_name_spec(i),
{
    let mut v: Vec<&'static str> = Vec::new();
    v.push("mpv_create");
    v.push("mpv_destroy");
    v.push("mpv_initialize");
    v.push("mpv_set_option");
    v.push("mpv_set_option_string");
    v.push("mpv_set_property");
    v.push("mpv_get_property");
    v.push("mpv_command");
    v
}

/// The name of the optional entry point, tolerated when absent.
pub fn optional_symbol_name() -> (r: &'static str)
    ensures
        r@ == "mpv_set_log_level"@,
{
    "mpv_set_log_level"
}

/// The outcome of probing the loaded library for every entry point:
/// `failures[i]` is `None` when required entry point `i` resolved, and
/// `Some(detail)` with the lookup error when it did not;
/// `set_log_level_present` records whether the optional entry point
/// resolved.
pub struct SymbolProbe {
    pub failures: Vec<Option<String>>,
    pub set_log_level_present: bool,
}

impl SymbolProbe {
    /// The probe's lookup errors, as plain character sequences.
    pub open spec fn errors(self) -> Seq<Option<Seq<char>>> {
        self.failures@.map_values(
            |o: Option<String>|
                match o {
                    Option::None => Option::<Seq<char>>::None,
                    Option::Some(s) => Option::Some(s@),
                },
        )
    }
}

/// The index of the first failed required lookup at or after `i`, or
/// `fs.len()` when every lookup from `i` on succeeded.
pub open spec fn first_missing_from(fs: Seq<Option<Seq<char>>>, i: int) -> int
    decreases fs.len() - i,
{
    if i < 0 || i >= fs.len() {
        fs.len() as int
    } else if fs[i] is Some {
        i
    } else {
        first_missing_from(fs, i + 1)
    }
}

/// What binding returns, as a function of the probe: the table shape when
/// every required lookup succeeded, else a message naming the first missing
/// entry point and its lookup error.
pub open spec fn bind_spec(fs: Seq<Option<Seq<char>>>, log_level_present: bool) -> Result<
    SymbolTableShape,
    Seq<char>,
> {
    let k = first_missing_from(fs, 0);
    if k >= fs.len() {
        Ok(SymbolTableShape { has_set_log_level: log_level_present })
    } else {
        Err(required_name_spec(k) + ": "@ + fs[k]->0)
    }
}

proof fn lemma_first_missing_skips_resolved(fs: Seq<Option<Seq<char>>>, i: int)
    requires
        0 <= i <= fs.len(),
        forall|j: int| 0 <= j < i ==> fs[j] is None,
    ensures
        first_missing_from(fs, 0) == first_missing_from(fs, i),
    decreases i,
{
    if i > 0 {
        lemma_first_missing_skips_resolved(fs, i - 1);
        assert(first_missing_from(fs, i - 1) == first_missing_from(fs, i));
    }
}

proof fn lemma_first_missing_found(fs: Seq<Option<Seq<char>>>, s: int, i: int)
    requires
        0 <= s <= i < fs.len(),
        fs[i] is Some,
    ensures
        s <= first_missing_from(fs, s) <= i,
        fs[first_missing_from(fs, s)] is Some,
    decreases i - s,
{
    if fs[s] is None {
        lemma_first_missing_found(fs, s + 1, i);
    }
}

/// Binds the symbol table from a probe of all nine entry points: succeeds
/// exactly when every required lookup succeeded, else fails with a message
/// naming the first missing required entry point.
pub fn bind(probe: &SymbolProbe) -> (r: Result<SymbolTableShape, String>)
    requires
        probe.failures@.len() == 8,
    ensures
        r matches Ok(t) ==> bind_spec(probe.errors(), probe.set_log_level_present) == Ok::<
            _,
            Seq<char>,
        >(t),
        r matches Err(m) ==> (bind_spec(probe.errors(), probe.set_log_level_present) matches Err(s)
            && m@ == s),
{
    let names = required_symbol_names();
    let ghost fs = probe.errors();
    let mut i: usize = 0;
    while i < 8
        invariant
            probe.failures@.len() == 8,
            fs == probe.errors(),
            fs.len() == 8,
            names@.len() == 8,
            forall|k: int| 0 <= k < 8 ==> (#[trigger] names@[k])@ == required_name_spec(k),
            i <= 8,
            forall|j: int| 0 <= j < i ==> fs[j] is None,
        decreases 8 - i,
    {
        if let Some(detail) = &probe.failures[i] {
            proof {
                lemma_first_missing_skips_resolved(fs, i as int);
                assert(fs[i as int] is Some);
            }
            let m = String::from_str(names[i]).concat(": ").concat(detail.as_str());
            return Err(m);
        }
        i = i + 1;
    }
    proof {
        lemma_first_missing_skips_resolved(fs, 8);
    }
    Ok(SymbolTableShape { has_set_log_level: probe.set_log_level_present })
}

/// If every required entry point resolves, binding succeeds even when the
/// optional log-level entry point is absent, and the table records its
/// absence — so the create step's best-effort log suppression is skipped
/// without error.
pub proof fn lemma_optional_absent_binding_succeeds(fs: Seq<Option<Seq<char>>>)
    requires
        fs.len() == 8,
        forall|i: int| 0 <= i < 8 ==> fs[i] is None,
    ensures
        bind_spec(fs, false) == Ok::<_, Seq<char>>(SymbolTableShape { has_set_log_level: false }),
{
    lemma_first_missing_skips_resolved(fs, 8);
}

/// If some required entry point is missing, binding fails, and the failure
/// message names the first missing entry point: it is exactly that entry
/// point's name, a `": "` separator, and the lookup error, so the message
/// begins with the missing name.
pub proof fn lemma_missing_required_fails(
    fs: Seq<Option<Seq<char>>>,
    log_level_present: bool,
    i: int,
)
    requires
        fs.len() == 8,
        0 <= i < 8,
        fs[i] is Some,
    ensures
        bind_spec(fs, log_level_present) matches Err(m) && {
            let k = first_missing_from(fs, 0);
            &&& 0 <= k <= i
            &&& fs[k] is Some
            &&& m == required_name_spec(k) + ": "@ + fs[k]->0
            &&& m.subrange(0, required_name_spec(k).len() as int) == required_name_spec(k)
        },
{
    lemma_first_missing_found(fs, 0, i);
    let k = first_missing_from(fs, 0);
    let m = required_name_spec(k) + ": "@ + fs[k]->0;
    assert(m.subrange(0, required_name_spec(k).len() as int) =~= required_name_spec(k));
}

} // verus!
