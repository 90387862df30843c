use vstd::prelude::*;
use vstd::pervasive::cloned;
use vstd::string::StringExecFns;
use crate::stack::{EffectNode, EffectStack};
use crate::text::{decimal, decimal_string};

verus! {

/// A recipe's header: its name and the tool that wrote it.
#[derive(Debug, Clone)]
pub struct RecipeMeta {
    pub name: String,
    pub created_with: String,
}

/// One effect of a recipe: its registry key, whether it is enabled, and its
/// parameters.
#[derive(Debug, Clone)]
pub struct RecipeEffect<P> {
    pub key: String,
    pub enabled: bool,
    pub params: P,
}

/// A saved [`EffectStack`]: the shape a recipe file holds, shared by the
/// desktop app (which writes it) and the batch tool (which replays it).
#[derive(Debug, Clone)]
pub struct Recipe<P> {
    pub meta: RecipeMeta,
    pub effects: Vec<RecipeEffect<P>>,
}

/// The tool signature written into every recipe this library creates.
pub open spec fn recipe_signature() -> Seq<char> {
    "ditherwave-recipe 0.1.0"@
}

/// A recipe effect that leaves out `enabled` is enabled.
pub fn default_enabled() -> (b: bool)
    ensures
        b,
{
    true
}

/// `recipe` records `stack` under `name`: one effect per node, in order,
/// with the node's key, enabled flag and (a clone of its) parameters.
pub open spec fn records_stack<P: Clone>(recipe: Recipe<P>, name: Seq<char>, stack: EffectStack<P>) -> bool {
    &&& recipe.meta.name@ == name
    &&& recipe.meta.created_with@ == recipe_signature()
    &&& recipe.effects@.len() == stack.nodes@.len()
    &&& forall|i: int|
        0 <= i < stack.nodes@.len() ==> {
            &&& (#[trigger] recipe.effects@[i]).key@ == stack.nodes@[i].effect_key@
            &&& recipe.effects@[i].enabled == stack.nodes@[i].enabled
            &&& cloned(stack.nodes@[i].params, recipe.effects@[i].params)
        }
}

/// `stack` rebuilds `recipe`: one node per effect, in order, with the
/// effect's key, enabled flag and (a clone of its) parameters, and the
/// node's position, in decimal, as its id.
pub open spec fn rebuilds_recipe<P: Clone>(stack: EffectStack<P>, recipe: Recipe<P>) -> bool {
    &&& stack.nodes@.len() == recipe.effects@.len()
    &&& forall|i: int|
        0 <= i < recipe.effects@.len() ==> {
            &&& (#[trigger] stack.nodes@[i]).effect_key@ == recipe.effects@[i].key@
            &&& stack.nodes@[i].enabled == recipe.effects@[i].enabled
            &&& cloned(recipe.effects@[i].params, stack.nodes@[i].params)
            &&& stack.nodes@[i].id@ == decimal(i as nat)
        }
}

impl<P: Clone> Recipe<P> {
    /// A recipe saving `stack` under `name`.
    pub fn from_stack(name: &str, stack: &EffectStack<P>) -> (r: Self)
        ensures
            records_stack(r, name@, *stack),
    {
        let mut effects: Vec<RecipeEffect<P>> = Vec::new();
        let n = stack.nodes.len();
        let mut i: usize = 0;
        while i < n
            invariant
                n == stack.nodes@.len(),
                i <= n,
                effects@.len() == i,
                forall|j: int|
                    0 <= j < i ==> {
                        &&& (#[trigger] effects@[j]).key@ == stack.nodes@[j].effect_key@
                        &&& effects@[j].enabled == stack.nodes@[j].enabled
                        &&& cloned(stack.nodes@[j].params, effects@[j].params)
                    },
            decreases n - i,
        {
            let node = &stack.nodes[i];
            effects.push(
                RecipeEffect {
                    key: node.effect_key.clone(),
                    enabled: node.enabled,
                    params: node.params.clone(),
                },
            );
            i = i + 1;
        }
        let created_with = String::from_str("ditherwave-recipe 0.1.0");
        proof {
            reveal_strlit("ditherwave-recipe 0.1.0");
        }
        Recipe { meta: RecipeMeta { name: String::from_str(name), created_with }, effects }
    }

    /// Rebuilds an [`EffectStack`] from this recipe. Node ids are the nodes'
    /// positions, since a recipe carries no per-node identity.
    pub fn to_stack(&self) -> (s: EffectStack<P>)
        ensures
            rebuilds_recipe(s, *self),
    {
        let mut nodes: Vec<EffectNode<P>> = Vec::new();
        let n = self.effects.len();
        let mut i: usize = 0;
        while i < n
            invariant
                n == self.effects@.len(),
                i <= n,
                nodes@.len() == i,
                forall|j: int|
                    0 <= j < i ==> {
                        &&& (#[trigger] nodes@[j]).effect_key@ == self.effects@[j].key@
                        &&& nodes@[j].enabled == self.effects@[j].enabled
                        &&& cloned(self.effects@[j].params, nodes@[j].params)
                        &&& nodes@[j].id@ == decimal(j as nat)
                    },
            decreases n - i,
        {
            let e = &self.effects[i];
            nodes.push(
                EffectNode {
                    id: decimal_string(i as u64),
                    effect_key: e.key.clone(),
                    params: e.params.clone(),
                    enabled: e.enabled,
                },
            );
            i = i + 1;
        }
        EffectStack { nodes }
    }
}

/// Saving a stack as a recipe and rebuilding a stack from it keeps every
/// node's effect key and enabled flag, in order, and numbers the nodes by
/// position; where cloning a parameter set gives an equal one, every node
/// keeps its parameters too.
pub proof fn lemma_recipe_round_trip<P: Clone>(
    stack: EffectStack<P>,
    name: Seq<char>,
    recipe: Recipe<P>,
    rebuilt: EffectStack<P>,
)
    requires
        records_stack(recipe, name, stack),
        rebuilds_recipe(rebuilt, recipe),
    ensures
        rebuilt.nodes@.len() == stack.nodes@.len(),
        forall|i: int|
            0 <= i < stack.nodes@.len() ==> {
                &&& (#[trigger] rebuilt.nodes@[i]).effect_key@ == stack.nodes@[i].effect_key@
                &&& rebuilt.nodes@[i].enabled == stack.nodes@[i].enabled
                &&& rebuilt.nodes@[i].id@ == decimal(i as nat)
            },
        (forall|a: P, b: P| #[trigger] cloned(a, b) ==> a == b) ==> forall|i: int|
            0 <= i < stack.nodes@.len() ==> (#[trigger] rebuilt.nodes@[i]).params
                == stack.nodes@[i].params,
{
    if forall|a: P, b: P| #[trigger] cloned(a, b) ==> a == b {
        assert forall|i: int| 0 <= i < stack.nodes@.len() implies (#[trigger] rebuilt.nodes@[
            i]).params == stack.nodes@[i].params by {
            assert(cloned(stack.nodes@[i].params, recipe.effects@[i].params));
            assert(cloned(recipe.effects@[i].params, rebuilt.nodes@[i].params));
        }
    }
    assert forall|i: int| 0 <= i < stack.nodes@.len() implies {
        &&& (#[trigger] rebuilt.nodes@[i]).effect_key@ == stack.nodes@[i].effect_key@
        &&& rebuilt.nodes@[i].enabled == stack.nodes@[i].enabled
        &&& rebuilt.nodes@[i].id@ == decimal(i as nat)
    } by {
        assert(recipe.effects@[i].key@ == stack.nodes@[i].effect_key@);
    }
}

} // verus!
