use vstd::prelude::*;
use crate::effect::EffectError;
use crate::registry::Registry;

verus! {

/// One entry of an [`EffectStack`]: which effect (by registry key), its
/// parameters, and whether it is currently active. `P` is the parameter
/// map (JSON values keyed by parameter name).
#[derive(Debug, Clone)]
pub struct EffectNode<P> {
    pub id: String,
    pub effect_key: String,
    pub params: P,
    pub enabled: bool,
}

/// An ordered, user-editable list of effects applied top to bottom.
#[derive(Debug, Clone)]
pub struct EffectStack<P> {
    pub nodes: Vec<EffectNode<P>>,
}

/// Whether `result` is a possible outcome of running `nodes[from..]` on
/// `current`, where `applies(effect, image, params, out)` says that
/// applying `effect` with `params` to `image` may give `out`: a disabled
/// node is skipped; an enabled node whose key is not registered stops the
/// run with `InvalidParam(key)`; otherwise the effect is applied, an error
/// it returns stops the run, and its image is fed into the rest of the
/// stack. Past the last node the run's outcome is the current image.
pub open spec fn run_outcome<P, E, I>(
    nodes: Seq<EffectNode<P>>,
    from: int,
    registry: Map<Seq<char>, E>,
    applies: spec_fn(E, I, P, Result<I, EffectError>) -> bool,
    current: I,
    result: Result<I, EffectError>,
) -> bool
    decreases nodes.len() - from,
{
    if from < 0 || from >= nodes.len() {
        result == Ok::<I, EffectError>(current)
    } else if !nodes[from].enabled {
        run_outcome(nodes, from + 1, registry, applies, current, result)
    } else if !registry.contains_key(nodes[from].effect_key@) {
        result == Err::<I, EffectError>(EffectError::InvalidParam(nodes[from].effect_key))
    } else {
        exists|next: Result<I, EffectError>|
            #[trigger] applies(registry[nodes[from].effect_key@], current, nodes[from].params, next)
                && match next {
                Err(e) => result == Err::<I, EffectError>(e),
                Ok(image) => run_outcome(nodes, from + 1, registry, applies, image, result),
            }
    }
}

impl<P> Default for EffectStack<P> {
    /// An empty stack.
    fn default() -> (s: Self)
        ensures
            s.nodes@.len() == 0,
    {
        EffectStack { nodes: Vec::new() }
    }
}

impl<P> EffectStack<P> {
    /// Runs every enabled node top to bottom against `input`, feeding each
    /// node's output into the next; `apply` applies a registered effect
    /// with a node's parameters. Stops at the first enabled node whose key
    /// is not registered (`InvalidParam` with that key) or whose effect
    /// fails (that error).
    pub fn run<E, I, F: Fn(&E, &I, &P) -> Result<I, EffectError>>(
        &self,
        input: I,
        registry: &Registry<E>,
        apply: F,
    ) -> (r: Result<I, EffectError>)
        requires
            forall|e: &E, image: &I, params: &P| apply.requires((e, image, params)),
        ensures
            run_outcome(
                self.nodes@,
                0,
                registry@,
                |e: E, image: I, params: P, out: Result<I, EffectError>|
                    call_ensures(apply, (&e, &image, &params), out),
                input,
                r,
            ),
    {
        let ghost nodes = self.nodes@;
        let ghost reg = registry@;
        let ghost applies = |e: E, image: I, params: P, out: Result<I, EffectError>|
            call_ensures(apply, (&e, &image, &params), out);
        let n = self.nodes.len();
        let mut current = input;
        let mut i: usize = 0;
        while i < n
            invariant
                n == nodes.len(),
                nodes == self.nodes@,
                reg == registry@,
                i <= n,
                forall|e: &E, image: &I, params: &P| apply.requires((e, image, params)),
                applies == (|e: E, image: I, params: P, out: Result<I, EffectError>|
                    call_ensures(apply, (&e, &image, &params), out)),
                forall|res: Result<I, EffectError>|
                    #[trigger] run_outcome(nodes, i as int, reg, applies, current, res)
                        ==> run_outcome(nodes, 0, reg, applies, input, res),
            decreases n - i,
        {
            let node = &self.nodes[i];
            if node.enabled {
                match registry.get(node.effect_key.as_str()) {
                    None => {
                        let r = Err(EffectError::InvalidParam(node.effect_key.clone()));
                        assert(run_outcome(nodes, i as int, reg, applies, current, r));
                        return r;
                    },
                    Some(effect) => {
                        let next = apply(effect, &current, &node.params);
                        assert(applies(reg[node.effect_key@], current, node.params, next));
                        match next {
                            Err(e) => {
                                let r = Err(e);
                                assert(run_outcome(nodes, i as int, reg, applies, current, r));
                                return r;
                            },
                            Ok(image) => {
                                proof {
                                    assert forall|res: Result<I, EffectError>|
                                        #[trigger] run_outcome(
                                            nodes,
                                            i + 1,
                                            reg,
                                            applies,
                                            image,
                                            res,
                                        ) implies run_outcome(
                                        nodes,
                                        0,
                                        reg,
                                        applies,
                                        input,
                                        res,
                                    ) by {
                                        assert(run_outcome(nodes, i as int, reg, applies, current, res));
                                    }
                                }
                                current = image;
                            },
                        }
                    },
                }
            } else {
                proof {
                    assert forall|res: Result<I, EffectError>|
                        #[trigger] run_outcome(nodes, i + 1, reg, applies, current, res)
                            implies run_outcome(nodes, 0, reg, applies, input, res) by {
                        assert(run_outcome(nodes, i as int, reg, applies, current, res));
                    }
                }
            }
            i = i + 1;
        }
        let r = Ok(current);
        assert(run_outcome(nodes, n as int, reg, applies, current, r));
        r
    }
}

/// Past position `k` of `removed`, which is `nodes` without its node `j`
/// (`j <= k`), the two stacks run alike.
proof fn lemma_shifted_tail_runs_alike<P, E, I>(
    nodes: Seq<EffectNode<P>>,
    j: int,
    k: int,
    registry: Map<Seq<char>, E>,
    applies: spec_fn(E, I, P, Result<I, EffectError>) -> bool,
    current: I,
    result: Result<I, EffectError>,
)
    requires
        0 <= j <= k,
        j < nodes.len(),
    ensures
        run_outcome(nodes, k + 1, registry, applies, current, result) == run_outcome(
            nodes.remove(j),
            k,
            registry,
            applies,
            current,
            result,
        ),
    decreases nodes.len() - k,
{
    let removed = nodes.remove(j);
    if k + 1 < nodes.len() {
        assert(removed[k] == nodes[k + 1]);
        let node = nodes[k + 1];
        if node.enabled && registry.contains_key(node.effect_key@) {
            assert forall|next: Result<I, EffectError>|
                #[trigger] applies(registry[node.effect_key@], current, node.params, next) implies (match next {
                    Err(e) => result == Err::<I, EffectError>(e),
                    Ok(image) => run_outcome(nodes, k + 2, registry, applies, image, result),
                }) == (match next {
                    Err(e) => result == Err::<I, EffectError>(e),
                    Ok(image) => run_outcome(removed, k + 1, registry, applies, image, result),
                }) by {
                if let Ok(image) = next {
                    lemma_shifted_tail_runs_alike(nodes, j, k + 1, registry, applies, image, result);
                }
            }
        } else if !node.enabled {
            lemma_shifted_tail_runs_alike(nodes, j, k + 1, registry, applies, current, result);
        }
    }
}

/// Positions before `j` of `nodes` and of `nodes` without its disabled
/// node `j` run alike.
proof fn lemma_prefix_runs_alike<P, E, I>(
    nodes: Seq<EffectNode<P>>,
    j: int,
    from: int,
    registry: Map<Seq<char>, E>,
    applies: spec_fn(E, I, P, Result<I, EffectError>) -> bool,
    current: I,
    result: Result<I, EffectError>,
)
    requires
        0 <= from <= j < nodes.len(),
        !nodes[j].enabled,
    ensures
        run_outcome(nodes, from, registry, applies, current, result) == run_outcome(
            nodes.remove(j),
            from,
            registry,
            applies,
            current,
            result,
        ),
    decreases j - from,
{
    let removed = nodes.remove(j);
    if from == j {
        lemma_shifted_tail_runs_alike(nodes, j, j, registry, applies, current, result);
    } else {
        assert(removed[from] == nodes[from]);
        let node = nodes[from];
        if node.enabled && registry.contains_key(node.effect_key@) {
            assert forall|next: Result<I, EffectError>|
                #[trigger] applies(registry[node.effect_key@], current, node.params, next) implies (match next {
                    Err(e) => result == Err::<I, EffectError>(e),
                    Ok(image) => run_outcome(nodes, from + 1, registry, applies, image, result),
                }) == (match next {
                    Err(e) => result == Err::<I, EffectError>(e),
                    Ok(image) => run_outcome(removed, from + 1, registry, applies, image, result),
                }) by {
                if let Ok(image) = next {
                    lemma_prefix_runs_alike(nodes, j, from + 1, registry, applies, image, result);
                }
            }
        } else if !node.enabled {
            lemma_prefix_runs_alike(nodes, j, from + 1, registry, applies, current, result);
        }
    }
}

/// Disabled nodes do not take part in a run: taking a disabled node out of
/// a stack leaves the possible outcomes of running it unchanged.
pub proof fn lemma_disabled_node_changes_nothing<P, E, I>(
    nodes: Seq<EffectNode<P>>,
    j: int,
    registry: Map<Seq<char>, E>,
    applies: spec_fn(E, I, P, Result<I, EffectError>) -> bool,
    input: I,
    result: Result<I, EffectError>,
)
    requires
        0 <= j < nodes.len(),
        !nodes[j].enabled,
    ensures
        run_outcome(nodes, 0, registry, applies, input, result) == run_outcome(
            nodes.remove(j),
            0,
            registry,
            applies,
            input,
            result,
        ),
{
    lemma_prefix_runs_alike(nodes, j, 0, registry, applies, input, result);
}

/// A stack with no enabled node (an empty one among them) returns its
/// input unchanged, and nothing else.
pub proof fn lemma_nothing_enabled_returns_input<P, E, I>(
    nodes: Seq<EffectNode<P>>,
    from: int,
    registry: Map<Seq<char>, E>,
    applies: spec_fn(E, I, P, Result<I, EffectError>) -> bool,
    input: I,
    result: Result<I, EffectError>,
)
    requires
        0 <= from,
        forall|i: int| 0 <= i < nodes.len() ==> !(#[trigger] nodes[i]).enabled,
    ensures
        run_outcome(nodes, from, registry, applies, input, result) == (result == Ok::<
            I,
            EffectError,
        >(input)),
    decreases nodes.len() - from,
{
    if from < nodes.len() {
        lemma_nothing_enabled_returns_input(nodes, from + 1, registry, applies, input, result);
    }
}

/// A run whose first enabled node names an effect that is not registered
/// fails with `InvalidParam` and that key, and no other outcome.
pub proof fn lemma_unregistered_effect_fails<P, E, I>(
    nodes: Seq<EffectNode<P>>,
    first: int,
    from: int,
    registry: Map<Seq<char>, E>,
    applies: spec_fn(E, I, P, Result<I, EffectError>) -> bool,
    input: I,
    result: Result<I, EffectError>,
)
    requires
        0 <= from <= first < nodes.len(),
        nodes[first].enabled,
        forall|i: int| 0 <= i < first ==> !(#[trigger] nodes[i]).enabled,
        !registry.contains_key(nodes[first].effect_key@),
    ensures
        run_outcome(nodes, from, registry, applies, input, result) == (result == Err::<
            I,
            EffectError,
        >(EffectError::InvalidParam(nodes[first].effect_key))),
    decreases first - from,
{
    if from < first {
        lemma_unregistered_effect_fails(nodes, first, from + 1, registry, applies, input, result);
    }
}

/// The result of running `nodes[from..]` on `current` when applying an
/// effect is the function `apply`: the enabled nodes, top to bottom, folded
/// over the image, where an unregistered key gives `InvalidParam(key)` and
/// the first error is returned unchanged.
pub open spec fn run_fold<P, E, I>(
    nodes: Seq<EffectNode<P>>,
    from: int,
    registry: Map<Seq<char>, E>,
    apply: spec_fn(E, I, P) -> Result<I, EffectError>,
    current: I,
) -> Result<I, EffectError>
    decreases nodes.len() - from,
{
    if from < 0 || from >= nodes.len() {
        Ok(current)
    } else if !nodes[from].enabled {
        run_fold(nodes, from + 1, registry, apply, current)
    } else if !registry.contains_key(nodes[from].effect_key@) {
        Err(EffectError::InvalidParam(nodes[from].effect_key))
    } else {
        match apply(registry[nodes[from].effect_key@], current, nodes[from].params) {
            Err(e) => Err(e),
            Ok(image) => run_fold(nodes, from + 1, registry, apply, image),
        }
    }
}

/// Where applying an effect can give only one image or error (the function
/// `apply`), a run's outcome is the fold of the enabled nodes: disabled
/// nodes are never looked up or applied, each output feeds the next node,
/// and the first error ends the run unchanged.
pub proof fn lemma_run_is_fold<P, E, I>(
    nodes: Seq<EffectNode<P>>,
    from: int,
    registry: Map<Seq<char>, E>,
    applies: spec_fn(E, I, P, Result<I, EffectError>) -> bool,
    apply: spec_fn(E, I, P) -> Result<I, EffectError>,
    current: I,
    result: Result<I, EffectError>,
)
    requires
        forall|e: E, image: I, params: P, out: Result<I, EffectError>|
            #[trigger] applies(e, image, params, out) ==> out == apply(e, image, params),
        run_outcome(nodes, from, registry, applies, current, result),
    ensures
        result == run_fold(nodes, from, registry, apply, current),
    decreases nodes.len() - from,
{
    if 0 <= from < nodes.len() {
        let node = nodes[from];
        if !node.enabled {
            lemma_run_is_fold(nodes, from + 1, registry, applies, apply, current, result);
        } else if registry.contains_key(node.effect_key@) {
            let next = choose|next: Result<I, EffectError>|
                #[trigger] applies(registry[node.effect_key@], current, node.params, next) && match next {
                    Err(e) => result == Err::<I, EffectError>(e),
                    Ok(image) => run_outcome(nodes, from + 1, registry, applies, image, result),
                };
            if let Ok(image) = next {
                lemma_run_is_fold(nodes, from + 1, registry, applies, apply, image, result);
            }
        }
    }
}

} // verus!
