use vstd::prelude::*;

verus! {

/// A parsed probe selector. The textual grammar
/// `<vendor_id>:<product_id>[-<interface>][:<serial>]` is owned by probe-rs;
/// this type holds the result in plain values.
#[derive(Debug)]
pub struct ProbeSelector {
    pub vendor_id: u16,
    pub product_id: u16,
    pub interface: Option<u8>,
    pub serial_number: Option<String>,
}

/// The mathematical shape of a `ProbeSelector`.
pub struct ProbeSelectorView {
    pub vendor_id: u16,
    pub product_id: u16,
    pub interface: Option<u8>,
    pub serial_number: Option<Seq<char>>,
}

impl View for ProbeSelector {
    type V = ProbeSelectorView;

    open spec fn view(&self) -> ProbeSelectorView {
        ProbeSelectorView {
            vendor_id: self.vendor_id,
            product_id: self.product_id,
            interface: self.interface,
            serial_number: self.serial_number.deep_view(),
        }
    }
}

impl Clone for ProbeSelector {
    fn clone(&self) -> (r: Self)
        ensures
            r == *self,
    {
        ProbeSelector {
            vendor_id: self.vendor_id,
            product_id: self.product_id,
            interface: self.interface,
            serial_number: match &self.serial_number {
                Some(s) => Some(s.clone()),
                None => None,
            },
        }
    }
}

/// What the selector grammar makes of a string: `None` where the string is
/// rejected, otherwise the parsed selector. The grammar is owned by
/// probe-rs; the result is a function of the string alone.
pub uninterp spec fn selector_parse(s: Seq<char>) -> Option<ProbeSelectorView>;

/// Relies on `probe_rs::probe::DebugProbeSelector`'s `FromStr`: the parse is
/// deterministic in the string, and the parsed fields are returned as they
/// stand in the selector.
#[verifier::external_body]
pub(crate) fn parse_selector_ext(s: &str) -> (r: Option<ProbeSelector>)
    ensures
        (r is Some) == (selector_parse(s@) is Some),
        r matches Some(p) ==> selector_parse(s@) == Some(p@),
{
    match s.parse::<probe_rs::probe::DebugProbeSelector>() {
        Ok(d) => Some(ProbeSelector {
            vendor_id: d.vendor_id,
            product_id: d.product_id,
            interface: d.interface,
            serial_number: d.serial_number,
        }),
        Err(_) => None,
    }
}

#[verifier::external_type_specification]
#[verifier::external_body]
pub struct ExProbe(probe_rs::probe::Probe);

/// Relies on `probe_rs::probe::list::Lister::open` (on a fresh default
/// `Lister`): whether a probe can be opened depends on the attached
/// hardware, so nothing is promised of the outcome.
#[verifier::external_body]
pub(crate) fn open_probe_ext(selector: &ProbeSelector) -> (r: Result<
    probe_rs::probe::Probe,
    String,
>)
{
    let sel = probe_rs::probe::DebugProbeSelector {
        vendor_id: selector.vendor_id,
        product_id: selector.product_id,
        interface: selector.interface,
        serial_number: selector.serial_number.clone(),
    };
    match probe_rs::probe::list::Lister::new().open(sel) {
        Ok(p) => Ok(p),
        Err(e) => Err(format!("{e}")),
    }
}

} // verus!
