use vstd::prelude::*;
use crate::config::{
    application_name, diagnostic_extension, diagnostic_extension_name, engine_name,
    lemma_views_push, make_api_version, validation_layer, views,
};
use crate::diagnostics::{spec_subscription_descriptor, DiagnosticsProvider, SubscriptionDescriptor};

verus! {

/// Removes repeated names from a list, keeping the first occurrence of
/// each and the order of first occurrences.
pub open spec fn dedup_views(s: Seq<Seq<char>>) -> Seq<Seq<char>>
    decreases s.len(),
{
    if s.len() == 0 {
        Seq::empty()
    } else {
        let d = dedup_views(s.drop_last());
        if d.contains(s.last()) {
            d
        } else {
            d.push(s.last())
        }
    }
}

/// A deduplicated list holds exactly the names of its input.
pub proof fn lemma_dedup_contains(s: Seq<Seq<char>>, x: Seq<char>)
    ensures
        dedup_views(s).contains(x) == s.contains(x),
    decreases s.len(),
{
    if s.len() == 0 {
        assert(!s.contains(x));
        assert(!dedup_views(s).contains(x));
    } else {
        let front = s.drop_last();
        lemma_dedup_contains(front, x);
        let d = dedup_views(front);
        if s.contains(x) {
            let i = choose|i: int| 0 <= i < s.len() && s[i] == x;
            if i < s.len() - 1 {
                assert(front[i] == x);
                assert(front.contains(x));
            }
            if d.contains(x) {
                let k = choose|k: int| 0 <= k < d.len() && d[k] == x;
                assert(dedup_views(s)[k] == x);
                assert(dedup_views(s).contains(x));
            } else {
                assert(s.last() == x);
                assert(dedup_views(s) == d.push(x));
                assert(d.push(x)[d.len() as int] == x);
                assert(dedup_views(s).contains(x));
            }
        }
        if dedup_views(s).contains(x) {
            let k = choose|k: int| 0 <= k < dedup_views(s).len() && dedup_views(s)[k] == x;
            if d.contains(s.last()) {
                assert(d[k] == x);
                assert(front.contains(x));
                let i = choose|i: int| 0 <= i < front.len() && front[i] == x;
                assert(s[i] == x);
                assert(s.contains(x));
            } else {
                if k < d.len() {
                    assert(d[k] == x);
                    assert(front.contains(x));
                    let i = choose|i: int| 0 <= i < front.len() && front[i] == x;
                    assert(s[i] == x);
                    assert(s.contains(x));
                } else {
                    assert(s.last() == x);
                    assert(s[s.len() - 1] == x);
                    assert(s.contains(x));
                }
            }
        }
    }
}

/// A deduplicated list holds no name twice.
pub proof fn lemma_dedup_distinct(s: Seq<Seq<char>>)
    ensures
        forall|p: int, q: int|
            0 <= p < q < dedup_views(s).len() ==> dedup_views(s)[p] != dedup_views(s)[q],
    decreases s.len(),
{
    if s.len() == 0 {
    } else {
        let front = s.drop_last();
        lemma_dedup_distinct(front);
        let d = dedup_views(front);
        if d.contains(s.last()) {
        } else {
            let r = d.push(s.last());
            assert forall|p: int, q: int| 0 <= p < q < r.len() implies r[p] != r[q] by {
                if q < d.len() {
                    assert(r[p] == d[p] && r[q] == d[q]);
                } else {
                    assert(r[q] == s.last());
                    assert(r[p] == d[p]);
                    if d[p] == s.last() {
                        assert(d.contains(s.last()));
                    }
                }
            }
        }
    }
}

/// Whether a list of owned names holds one whose characters equal the
/// given name's.
fn contains_name(list: &Vec<String>, name: &String) -> (r: bool)
    ensures
        r == views(list@).contains(name@),
{
    let n = list.len();
    let mut k: usize = 0;
    while k < n
        invariant
            n == list@.len(),
            k <= n,
            forall|j: int| 0 <= j < k ==> list@[j]@ != name@,
        decreases n - k,
    {
        if list[k].eq(name) {
            assert(views(list@)[k as int] == name@);
            return true;
        }
        k = k + 1;
    }
    assert forall|j: int| 0 <= j < views(list@).len() implies views(list@)[j] != name@ by {
        assert(views(list@)[j] == list@[j]@);
    }
    false
}

/// The extension names an instance-creation call requests: the
/// window-required names, the diagnostic extension appended when
/// diagnostics are enabled, duplicates removed keeping first occurrences.
pub open spec fn merged_extension_views(window: Seq<Seq<char>>, diagnostics_enabled: bool) -> Seq<
    Seq<char>,
> {
    if diagnostics_enabled {
        dedup_views(window.push(diagnostic_extension()))
    } else {
        dedup_views(window)
    }
}

/// Everything an instance-creation call needs, assembled into owned
/// storage: identity constants, the negotiated extension and layer
/// names, and the optional chained messenger descriptor that lets the
/// creation call itself be validated.
pub struct InstanceConfig {
    pub application_name: String,
    pub application_version: u32,
    pub engine_name: String,
    pub engine_version: u32,
    pub api_version: u32,
    pub extensions: Vec<String>,
    pub layers: Vec<String>,
    pub chained_descriptor: Option<SubscriptionDescriptor>,
}

/// Merges window-required extensions with the diagnostics names and
/// fixes the instance identity constants.
pub struct InstanceBuilder {}

impl InstanceBuilder {
    /// Assembles the instance-creation configuration. The extension
    /// list merges the window-required names with the diagnostic
    /// extension (when enabled), first occurrences kept in order; the
    /// layer list is the validation layer exactly when diagnostics are
    /// enabled; the messenger descriptor is chained in exactly then too.
    pub fn build_instance_config(
        window_required: &Vec<String>,
        diagnostics: &DiagnosticsProvider,
    ) -> (c: InstanceConfig)
        ensures
            c.application_name@ == application_name(),
            c.engine_name@ == engine_name(),
            c.application_version == 0x20000000u32,
            c.engine_version == 0x20000000u32,
            c.api_version == 0x403000u32,
            views(c.extensions@) == merged_extension_views(
                views(window_required@),
                diagnostics.spec_enabled(),
            ),
            diagnostics.spec_enabled() ==> views(c.layers@) == seq![validation_layer()],
            !diagnostics.spec_enabled() ==> c.layers@.len() == 0,
            c.chained_descriptor == (if diagnostics.spec_enabled() {
                Some(spec_subscription_descriptor())
            } else {
                None::<SubscriptionDescriptor>
            }),
    {
        let ghost wv = views(window_required@);
        let mut extensions: Vec<String> = Vec::new();
        proof {
            assert(views(extensions@) =~= Seq::empty());
            assert(wv.take(0) =~= Seq::<Seq<char>>::empty());
        }
        let n = window_required.len();
        let mut i: usize = 0;
        while i < n
            invariant
                n == window_required@.len(),
                wv == views(window_required@),
                i <= n,
                views(extensions@) == dedup_views(wv.take(i as int)),
            decreases n - i,
        {
            let name = &window_required[i];
            proof {
                assert(wv[i as int] == name@);
            }
            if !contains_name(&extensions, name) {
                let owned = name.clone();
                proof {
                    lemma_views_push(extensions@, owned);
                }
                extensions.push(owned);
            }
            proof {
                assert(wv.take(i + 1).drop_last() =~= wv.take(i as int));
                assert(wv.take(i + 1).last() == wv[i as int]);
            }
            i = i + 1;
        }
        proof {
            assert(wv.take(n as int) =~= wv);
        }
        if diagnostics.is_enabled() {
            let name = diagnostic_extension_name();
            if !contains_name(&extensions, &name) {
                proof {
                    lemma_views_push(extensions@, name);
                }
                extensions.push(name);
            }
            proof {
                assert(wv.push(diagnostic_extension()).drop_last() =~= wv);
                assert(wv.push(diagnostic_extension()).last() == diagnostic_extension());
            }
        }

        let mut layers: Vec<String> = Vec::new();
        proof {
            assert(views(layers@) =~= Seq::empty());
        }
        diagnostics.append_required_layers(&mut layers);
        proof {
            if diagnostics.spec_enabled() {
                assert(views(layers@) =~= seq![validation_layer()]);
            }
        }

        let chained_descriptor = if diagnostics.is_enabled() {
            Some(diagnostics.build_subscription_descriptor())
        } else {
            None
        };

        InstanceConfig {
            application_name: "Hello Triangle".to_owned(),
            application_version: make_api_version(1, 0, 0, 0),
            engine_name: "No Engine".to_owned(),
            engine_version: make_api_version(1, 0, 0, 0),
            api_version: make_api_version(0, 1, 3, 0),
            extensions,
            layers,
            chained_descriptor,
        }
    }
}

/// With diagnostics enabled, the merged extension list names the
/// diagnostic extension exactly once, whatever the window requires:
/// it occurs, and no name occurs twice.
pub proof fn lemma_enabled_exactly_one_diagnostic(window: Seq<Seq<char>>)
    ensures
        merged_extension_views(window, true).contains(diagnostic_extension()),
        forall|p: int, q: int|
            0 <= p < q < merged_extension_views(window, true).len()
                ==> merged_extension_views(window, true)[p] != merged_extension_views(
                window,
                true,
            )[q],
{
    let appended = window.push(diagnostic_extension());
    assert(appended[window.len() as int] == diagnostic_extension());
    assert(appended.contains(diagnostic_extension()));
    lemma_dedup_contains(appended, diagnostic_extension());
    lemma_dedup_distinct(appended);
}

/// With diagnostics disabled, no diagnostic extension name enters the
/// merged extension list unless the window itself required it.
pub proof fn lemma_disabled_adds_no_diagnostic(window: Seq<Seq<char>>)
    requires
        !window.contains(diagnostic_extension()),
    ensures
        !merged_extension_views(window, false).contains(diagnostic_extension()),
{
    lemma_dedup_contains(window, diagnostic_extension());
}

} // verus!
