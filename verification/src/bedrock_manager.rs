// The Bedrock foundation models as the interface lists them, and the filters and
// sorting the interface offers for them.
use vstd::prelude::*;
use crate::tui::view_mode::list::{ListFilter, ListSorter, Order, order_of};
use crate::text::{chars_of, text_le, lemma_text_le_total, lemma_text_le_trans};

verus! {

broadcast use vstd::string::group_string_axioms;

/// The lifecycle status of a foundation model.
#[derive(Clone, Copy, Debug, PartialEq, Eq, Structural)]
pub enum ModelLifecycleStatus {
    Active,
    Legacy,
    Other,
}

/// A foundation model offered by Bedrock.
#[derive(Debug, Clone)]
pub struct BedrockModelSummary {
    pub model_id: String,
    pub model_name: Option<String>,
    pub provider_name: Option<String>,
    pub lifecycle_status: Option<ModelLifecycleStatus>,
    pub customizations_supported: Option<Vec<String>>,
    pub inference_types_supported: Option<Vec<String>>,
    pub response_streaming_supported: Option<bool>,
}

/// The model filters of the Bedrock list: models usable now, or models one can ask
/// access to (those not active, or with no known status).
#[derive(Clone, Copy, Debug, PartialEq, Eq, Structural)]
pub enum BedrockFilter {
    AvailableToUse,
    AvailableToRequestAccess,
}

impl ListFilter<BedrockModelSummary> for BedrockFilter {
    open spec fn keeps(&self, item: BedrockModelSummary) -> bool {
        match self {
            BedrockFilter::AvailableToUse => item.lifecycle_status == Some(ModelLifecycleStatus::Active),
            BedrockFilter::AvailableToRequestAccess => item.lifecycle_status != Some(ModelLifecycleStatus::Active),
        }
    }

    fn filter(&self, item: &BedrockModelSummary) -> (r: bool) {
        let active = match item.lifecycle_status {
            Some(s) => s == ModelLifecycleStatus::Active,
            None => false,
        };
        match self {
            BedrockFilter::AvailableToUse => active,
            BedrockFilter::AvailableToRequestAccess => !active,
        }
    }
}

/// The name a model is sorted by: its name, or the empty text.
pub open spec fn sort_name(m: BedrockModelSummary) -> Seq<char> {
    match m.model_name {
        Some(n) => n@,
        None => Seq::empty(),
    }
}

fn text_compare(a: &Vec<char>, b: &Vec<char>) -> (r: Order)
    ensures
        r == order_of(text_le(a@, b@), text_le(b@, a@)),
{
    let mut i: usize = 0;
    assert(a@.subrange(0, a@.len() as int) =~= a@);
    assert(b@.subrange(0, b@.len() as int) =~= b@);
    while i < a.len() && i < b.len() && a[i] == b[i]
        invariant
            i <= a@.len(),
            i <= b@.len(),
            text_le(a@, b@) == text_le(a@.subrange(i as int, a@.len() as int), b@.subrange(i as int, b@.len() as int)),
            text_le(b@, a@) == text_le(b@.subrange(i as int, b@.len() as int), a@.subrange(i as int, a@.len() as int)),
        decreases a@.len() - i,
    {
        assert(a@.subrange(i as int, a@.len() as int).drop_first() =~= a@.subrange(i + 1, a@.len() as int));
        assert(b@.subrange(i as int, b@.len() as int).drop_first() =~= b@.subrange(i + 1, b@.len() as int));
        i = i + 1;
    }
    let ghost sa = a@.subrange(i as int, a@.len() as int);
    let ghost sb = b@.subrange(i as int, b@.len() as int);
    if i == a.len() && i == b.len() {
        Order::Equal
    } else if i == a.len() {
        Order::Less
    } else if i == b.len() {
        Order::Greater
    } else {
        assert(sa[0] == a@[i as int] && sb[0] == b@[i as int]);
        if a[i] < b[i] {
            Order::Less
        } else {
            Order::Greater
        }
    }
}

/// The sort orders of the Bedrock list.
#[derive(Clone, Copy, Debug, PartialEq, Eq, Structural)]
pub enum BedrockSorter {
    Alphabetical,
}

impl ListSorter<BedrockModelSummary> for BedrockSorter {
    open spec fn le(&self, a: BedrockModelSummary, b: BedrockModelSummary) -> bool {
        text_le(sort_name(a), sort_name(b))
    }

    proof fn le_is_total_preorder(&self) {
        assert forall|a: BedrockModelSummary, b: BedrockModelSummary| #[trigger] self.le(a, b) || self.le(b, a) by {
            lemma_text_le_total(sort_name(a), sort_name(b));
        }
        assert forall|a: BedrockModelSummary, b: BedrockModelSummary, c: BedrockModelSummary| #[trigger] self.le(a, b) && #[trigger] self.le(b, c) implies self.le(a, c) by {
            lemma_text_le_trans(sort_name(a), sort_name(b), sort_name(c));
        }
    }

    fn compare(&self, a: &BedrockModelSummary, b: &BedrockModelSummary) -> (r: Order) {
        let na = match &a.model_name {
            Some(n) => chars_of(n.as_str()),
            None => Vec::new(),
        };
        let nb = match &b.model_name {
            Some(n) => chars_of(n.as_str()),
            None => Vec::new(),
        };
        text_compare(&na, &nb)
    }
}

} // verus!
