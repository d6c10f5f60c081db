//! The request/response correlator's decision core: given the messages
//! the broadcast delivered before the deadline, the first one matching
//! the request's filter resolves the exchange; no match resolves it as a
//! timeout, a closed source as a channel error. The single primitive
//! every device query goes through.

use vstd::prelude::*;
use crate::error::{FractalCoreError, FractalResult};
use crate::messages::{
    Blocks, EffectBypassStatus, Effects, FirmwareVersion, FractalAudioMessages, MessageView,
    PresetAndName, Scene, SceneWithName,
};
use crate::model::FractalModel;

verus! {

/// The closed set of response filters the session uses, one per query.
#[derive(Debug, Clone, Copy, PartialEq, Eq, Structural)]
pub enum ResponseFilter {
    /// A multipurpose response with function id and response code zero;
    /// its header carries the responding model.
    Discovery,
    Firmware,
    PresetAndName,
    Scene,
    SceneWithName,
    Blocks,
    Effects,
    EffectBypass,
}

/// What a resolved exchange hands back.
#[derive(Debug, Clone)]
pub enum FilterMatch {
    Model(FractalModel),
    Firmware(FirmwareVersion),
    PresetAndName(PresetAndName),
    Scene(Scene),
    SceneWithName(SceneWithName),
    Blocks(Blocks),
    Effects(Effects),
    EffectBypass(EffectBypassStatus),
}

/// Ghost view of a resolved exchange.
pub enum FilterMatchView {
    Model(FractalModel),
    Firmware { major: u8, minor: u8 },
    PresetAndName { number: u16, name: Seq<char> },
    Scene { number: u8 },
    SceneWithName { number: u8, name: Seq<char> },
    Blocks { blocks: Seq<crate::messages::Block> },
    Effects { effects: Seq<crate::messages::EffectStatus> },
    EffectBypass { effect_id: u8, is_bypassed: bool },
}

impl View for FilterMatch {
    type V = FilterMatchView;

    open spec fn view(&self) -> FilterMatchView {
        match self {
            FilterMatch::Model(m) => FilterMatchView::Model(*m),
            FilterMatch::Firmware(f) => FilterMatchView::Firmware {
                major: f.major,
                minor: f.minor,
            },
            FilterMatch::PresetAndName(p) => FilterMatchView::PresetAndName {
                number: p.number,
                name: p.name@,
            },
            FilterMatch::Scene(s) => FilterMatchView::Scene { number: s.number },
            FilterMatch::SceneWithName(s) => FilterMatchView::SceneWithName {
                number: s.number,
                name: s.name@,
            },
            FilterMatch::Blocks(b) => FilterMatchView::Blocks { blocks: b.blocks@ },
            FilterMatch::Effects(e) => FilterMatchView::Effects { effects: e.0@ },
            FilterMatch::EffectBypass(e) => FilterMatchView::EffectBypass {
                effect_id: e.effect_id,
                is_bypassed: e.is_bypassed,
            },
        }
    }
}

/// Whether one broadcast message resolves the filter.
pub open spec fn spec_filter_matches(f: ResponseFilter, m: MessageView) -> bool {
    match f {
        ResponseFilter::Discovery => m matches MessageView::MultipurposeResponse {
            function_id: 0,
            response_code: 0,
            ..
        },
        ResponseFilter::Firmware => m is FirmwareVersion,
        ResponseFilter::PresetAndName => m is PresetAndName,
        ResponseFilter::Scene => m is Scene,
        ResponseFilter::SceneWithName => m is SceneWithName,
        ResponseFilter::Blocks => m is Blocks,
        ResponseFilter::Effects => m is Effects,
        ResponseFilter::EffectBypass => m is EffectBypassStatus,
    }
}

/// What a matching message resolves to.
pub open spec fn spec_filter_value(f: ResponseFilter, m: MessageView) -> FilterMatchView {
    match f {
        ResponseFilter::Discovery => FilterMatchView::Model(
            match m {
                MessageView::MultipurposeResponse { model, .. } => model,
                _ => FractalModel::Standard,
            },
        ),
        ResponseFilter::Firmware => match m {
            MessageView::FirmwareVersion { major, minor } => FilterMatchView::Firmware {
                major,
                minor,
            },
            _ => FilterMatchView::Firmware { major: 0, minor: 0 },
        },
        ResponseFilter::PresetAndName => match m {
            MessageView::PresetAndName { number, name } => FilterMatchView::PresetAndName {
                number,
                name,
            },
            _ => FilterMatchView::PresetAndName { number: 0, name: Seq::empty() },
        },
        ResponseFilter::Scene => match m {
            MessageView::Scene { number } => FilterMatchView::Scene { number },
            _ => FilterMatchView::Scene { number: 0 },
        },
        ResponseFilter::SceneWithName => match m {
            MessageView::SceneWithName { number, name } => FilterMatchView::SceneWithName {
                number,
                name,
            },
            _ => FilterMatchView::SceneWithName { number: 0, name: Seq::empty() },
        },
        ResponseFilter::Blocks => match m {
            MessageView::Blocks { blocks } => FilterMatchView::Blocks { blocks },
            _ => FilterMatchView::Blocks { blocks: Seq::empty() },
        },
        ResponseFilter::Effects => match m {
            MessageView::Effects { effects } => FilterMatchView::Effects { effects },
            _ => FilterMatchView::Effects { effects: Seq::empty() },
        },
        ResponseFilter::EffectBypass => match m {
            MessageView::EffectBypassStatus { effect_id, is_bypassed } => (
            FilterMatchView::EffectBypass { effect_id, is_bypassed }),
            _ => FilterMatchView::EffectBypass { effect_id: 0, is_bypassed: false },
        },
    }
}

fn copy_vec<T: Copy>(v: &Vec<T>) -> (r: Vec<T>)
    ensures
        r@ == v@,
{
    let mut r: Vec<T> = Vec::new();
    let mut i: usize = 0;
    while i < v.len()
        invariant
            i <= v@.len(),
            r@ == v@.take(i as int),
        decreases v@.len() - i,
    {
        r.push(v[i]);
        proof {
            assert(v@.take(i + 1) =~= v@.take(i as int).push(v@[i as int]));
        }
        i = i + 1;
    }
    proof {
        assert(v@.take(v@.len() as int) =~= v@);
    }
    r
}

/// Applies one filter to one message.
pub fn apply_filter(f: &ResponseFilter, m: &FractalAudioMessages) -> (r: Option<FilterMatch>)
    ensures
        (r is Some) == spec_filter_matches(*f, m@),
        r matches Some(x) ==> x@ == spec_filter_value(*f, m@),
{
    match (f, m) {
        (ResponseFilter::Discovery, FractalAudioMessages::MultipurposeResponse(mr)) => {
            if mr.function_id == 0 && mr.response_code == 0 {
                Some(FilterMatch::Model(mr.model))
            } else {
                None
            }
        },
        (ResponseFilter::Firmware, FractalAudioMessages::FirmwareVersion(fw)) => Some(
            FilterMatch::Firmware(*fw),
        ),
        (ResponseFilter::PresetAndName, FractalAudioMessages::PresetAndName(p)) => Some(
            FilterMatch::PresetAndName(
                PresetAndName { number: p.number, name: p.name.clone() },
            ),
        ),
        (ResponseFilter::Scene, FractalAudioMessages::Scene(s)) => Some(FilterMatch::Scene(*s)),
        (ResponseFilter::SceneWithName, FractalAudioMessages::SceneWithName(s)) => Some(
            FilterMatch::SceneWithName(
                SceneWithName { number: s.number, name: s.name.clone() },
            ),
        ),
        (ResponseFilter::Blocks, FractalAudioMessages::Blocks(b)) => Some(
            FilterMatch::Blocks(Blocks { blocks: copy_vec(&b.blocks) }),
        ),
        (ResponseFilter::Effects, FractalAudioMessages::Effects(e)) => Some(
            FilterMatch::Effects(Effects(copy_vec(&e.0))),
        ),
        (ResponseFilter::EffectBypass, FractalAudioMessages::EffectBypassStatus(e)) => Some(
            FilterMatch::EffectBypass(*e),
        ),
        _ => None,
    }
}

/// Resolves one correlated exchange from the messages received before
/// the deadline: the first matching message wins; with no match the
/// exchange times out, or reports the source closed. A filter no
/// received message satisfies always resolves as a timeout, never
/// hangs and never fabricates a value.
pub fn filter_first(
    received: &Vec<FractalAudioMessages>,
    filter: &ResponseFilter,
    source_closed: bool,
) -> (r: FractalResult<FilterMatch>)
    ensures
        (r is Ok) == (exists|i: int|
            0 <= i < received@.len() && spec_filter_matches(*filter, #[trigger] received@[i]@)),
        r matches Ok(x) ==> exists|i: int|
            {
                &&& 0 <= i < received@.len()
                &&& spec_filter_matches(*filter, #[trigger] received@[i]@)
                &&& forall|j: int| 0 <= j < i ==> !spec_filter_matches(*filter, received@[j]@)
                &&& x@ == spec_filter_value(*filter, received@[i]@)
            },
        r matches Err(e) ==> e == (if source_closed {
            FractalCoreError::Unknown
        } else {
            FractalCoreError::Timeout
        }),
{
    let mut i: usize = 0;
    while i < received.len()
        invariant
            i <= received@.len(),
            forall|j: int| 0 <= j < i ==> !spec_filter_matches(*filter, received@[j]@),
        decreases received@.len() - i,
    {
        match apply_filter(filter, &received[i]) {
            Some(x) => {
                return Ok(x);
            },
            None => {},
        }
        i = i + 1;
    }
    if source_closed {
        Err(FractalCoreError::Unknown)
    } else {
        Err(FractalCoreError::Timeout)
    }
}

} // verus!
