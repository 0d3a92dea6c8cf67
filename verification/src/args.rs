//! The code that binds the arguments of a query site, one step per
//! parameter, in the order in which the protocol numbers the parameters.

use vstd::prelude::*;
use crate::describe::{type_views, TypeId};
use crate::diagnostic::{DiagnosticKind, DiagnosticKindView};
use crate::input::{arg_views, ArgSpec, ArgSpecView};
use crate::mapping::{spec_map, TargetType, TargetTypeView, TypeMapping, TypeRuleView};

verus! {

/// One binding: encode the argument as the parameter's database type and
/// append it to the outgoing arguments.
#[derive(Debug, PartialEq, Eq)]
pub struct EncodeStep {
    pub argument: ArgSpec,
    pub param_type: TypeId,
    /// In checked mode, the target type that the argument's expression must have.
    pub constraint: Option<TargetType>,
}

/// A binding step as a plain value.
pub struct EncodeStepView {
    pub argument: ArgSpecView,
    pub param_type: Seq<char>,
    pub constraint: Option<TargetTypeView>,
}

/// The view of an optional target type.
pub open spec fn target_view(target: Option<TargetType>) -> Option<TargetTypeView> {
    match target {
        Some(t) => Some(t@),
        None => None,
    }
}

impl View for EncodeStep {
    type V = EncodeStepView;

    open spec fn view(&self) -> EncodeStepView {
        EncodeStepView {
            argument: self.argument@,
            param_type: self.param_type@,
            constraint: target_view(self.constraint),
        }
    }
}

/// The binding steps of one query site, first parameter first.
#[derive(Debug, PartialEq, Eq)]
pub struct EncodingCode {
    pub steps: Vec<EncodeStep>,
}

impl View for EncodingCode {
    type V = Seq<EncodeStepView>;

    open spec fn view(&self) -> Seq<EncodeStepView> {
        self.steps@.map_values(|s: EncodeStep| s@)
    }
}

/// The step that binds `argument` to a parameter of type `param_type`.
///
/// Checked mode constrains the argument to the target type of the parameter,
/// and so needs the parameter's type in the table; unchecked mode
/// constrains nothing.
pub open spec fn spec_encode_step(
    argument: ArgSpecView,
    param_type: Seq<char>,
    table: Map<Seq<char>, TypeRuleView>,
    checked: bool,
) -> Result<EncodeStepView, DiagnosticKindView> {
    if checked {
        match spec_map(table, param_type, false, true) {
            Ok(mapped) => Ok(
                EncodeStepView { argument, param_type, constraint: Some(mapped.target) },
            ),
            Err(e) => Err(e),
        }
    } else {
        Ok(EncodeStepView { argument, param_type, constraint: None })
    }
}

/// The steps for the first `n` arguments, or the failure of the first step
/// that fails.
pub open spec fn spec_encode_prefix(
    args: Seq<ArgSpecView>,
    param_types: Seq<Seq<char>>,
    table: Map<Seq<char>, TypeRuleView>,
    checked: bool,
    n: nat,
) -> Result<Seq<EncodeStepView>, DiagnosticKindView>
    decreases n,
{
    if n == 0 {
        Ok(Seq::empty())
    } else {
        match spec_encode_prefix(args, param_types, table, checked, (n - 1) as nat) {
            Err(e) => Err(e),
            Ok(steps) => match spec_encode_step(args[n - 1], param_types[n - 1], table, checked) {
                Ok(step) => Ok(steps.push(step)),
                Err(e) => Err(e),
            },
        }
    }
}

/// The binding steps for `args` against `param_types`.
pub open spec fn spec_arg_encoding(
    args: Seq<ArgSpecView>,
    param_types: Seq<Seq<char>>,
    table: Map<Seq<char>, TypeRuleView>,
    checked: bool,
) -> Result<Seq<EncodeStepView>, DiagnosticKindView> {
    if args.len() != param_types.len() {
        Err(DiagnosticKindView::ArgCountMismatch { expected: param_types.len(), actual: args.len() })
    } else {
        spec_encode_prefix(args, param_types, table, checked, args.len())
    }
}

/// The steps for a prefix are as many as the prefix is long, and the step at
/// each place binds the argument and the parameter type at that place.
pub proof fn lemma_prefix_keeps_order(
    args: Seq<ArgSpecView>,
    param_types: Seq<Seq<char>>,
    table: Map<Seq<char>, TypeRuleView>,
    checked: bool,
    n: nat,
)
    ensures
        spec_encode_prefix(args, param_types, table, checked, n) matches Ok(steps) ==> {
            &&& steps.len() == n
            &&& forall|i: int|
                0 <= i < n ==> (#[trigger] steps[i]).argument == args[i] && steps[i].param_type
                    == param_types[i]
        },
    decreases n,
{
    if n > 0 {
        lemma_prefix_keeps_order(args, param_types, table, checked, (n - 1) as nat);
    }
}

/// Binding keeps the order of the call: whatever the arguments and however
/// they are arranged, step `i` of the generated code binds argument `i` to
/// parameter `i`, and there is one step per argument.
pub proof fn lemma_encoding_keeps_order(
    args: Seq<ArgSpecView>,
    param_types: Seq<Seq<char>>,
    table: Map<Seq<char>, TypeRuleView>,
    checked: bool,
)
    ensures
        spec_arg_encoding(args, param_types, table, checked) matches Ok(steps) ==> {
            &&& steps.len() == args.len()
            &&& steps.len() == param_types.len()
            &&& forall|i: int|
                0 <= i < steps.len() ==> (#[trigger] steps[i]).argument == args[i]
                    && steps[i].param_type == param_types[i]
        },
{
    lemma_prefix_keeps_order(args, param_types, table, checked, args.len());
}

/// A failure at some place is the failure of every longer prefix.
pub proof fn lemma_prefix_failure_persists(
    args: Seq<ArgSpecView>,
    param_types: Seq<Seq<char>>,
    table: Map<Seq<char>, TypeRuleView>,
    checked: bool,
    k: nat,
    n: nat,
)
    requires
        k <= n,
        spec_encode_prefix(args, param_types, table, checked, k) is Err,
    ensures
        spec_encode_prefix(args, param_types, table, checked, n) == spec_encode_prefix(
            args,
            param_types,
            table,
            checked,
            k,
        ),
    decreases n,
{
    if k < n {
        lemma_prefix_failure_persists(args, param_types, table, checked, k, (n - 1) as nat);
    }
}

/// Unchecked binding fails only on unequal counts.
pub proof fn lemma_unchecked_encoding_succeeds(
    args: Seq<ArgSpecView>,
    param_types: Seq<Seq<char>>,
    table: Map<Seq<char>, TypeRuleView>,
)
    ensures
        spec_arg_encoding(args, param_types, table, false) is Ok <==> args.len()
            == param_types.len(),
{
    lemma_unchecked_prefix_succeeds(args, param_types, table, args.len());
}

proof fn lemma_unchecked_prefix_succeeds(
    args: Seq<ArgSpecView>,
    param_types: Seq<Seq<char>>,
    table: Map<Seq<char>, TypeRuleView>,
    n: nat,
)
    ensures
        spec_encode_prefix(args, param_types, table, false, n) is Ok,
    decreases n,
{
    if n > 0 {
        lemma_unchecked_prefix_succeeds(args, param_types, table, (n - 1) as nat);
    }
}

/// The step at place `i`.
pub open spec fn step_at(
    args: Seq<ArgSpecView>,
    param_types: Seq<Seq<char>>,
    table: Map<Seq<char>, TypeRuleView>,
    checked: bool,
    i: int,
) -> Result<EncodeStepView, DiagnosticKindView> {
    spec_encode_step(args[i], param_types[i], table, checked)
}

/// The steps of a prefix are the steps of its places, one by one, and a
/// prefix fails only where one of its places does.
pub proof fn lemma_prefix_is_stepwise(
    args: Seq<ArgSpecView>,
    param_types: Seq<Seq<char>>,
    table: Map<Seq<char>, TypeRuleView>,
    checked: bool,
    n: nat,
)
    ensures
        match spec_encode_prefix(args, param_types, table, checked, n) {
            Ok(steps) => steps.len() == n && forall|i: int|
                0 <= i < n ==> #[trigger] step_at(args, param_types, table, checked, i) == Ok::<
                    EncodeStepView,
                    DiagnosticKindView,
                >(steps[i]),
            Err(_) => exists|i: int|
                0 <= i < n && #[trigger] step_at(args, param_types, table, checked, i) is Err,
        },
    decreases n,
{
    if n > 0 {
        lemma_prefix_is_stepwise(args, param_types, table, checked, (n - 1) as nat);
        if spec_encode_prefix(args, param_types, table, checked, (n - 1) as nat) is Err {
            let i = choose|i: int|
                0 <= i < n - 1 && #[trigger] step_at(args, param_types, table, checked, i) is Err;
            assert(step_at(args, param_types, table, checked, i) is Err);
        } else {
            assert(step_at(args, param_types, table, checked, n - 1) == spec_encode_step(
                args[n - 1],
                param_types[n - 1],
                table,
                checked,
            ));
        }
    }
}

/// `s` read in the order `order`: place `i` holds what `s` holds at `order[i]`.
pub open spec fn reordered<T>(s: Seq<T>, order: Seq<int>) -> Seq<T> {
    Seq::new(order.len(), |i: int| s[order[i]])
}

proof fn lemma_reordered_prefix(
    args: Seq<ArgSpecView>,
    param_types: Seq<Seq<char>>,
    order: Seq<int>,
    table: Map<Seq<char>, TypeRuleView>,
    checked: bool,
    n: nat,
)
    requires
        args.len() == param_types.len(),
        forall|i: int| 0 <= i < order.len() ==> 0 <= #[trigger] order[i] < args.len(),
        spec_encode_prefix(args, param_types, table, checked, args.len()) is Ok,
        n <= order.len(),
    ensures
        spec_encode_prefix(
            reordered(args, order),
            reordered(param_types, order),
            table,
            checked,
            n,
        ) == Ok::<Seq<EncodeStepView>, DiagnosticKindView>(
            reordered(
                spec_encode_prefix(args, param_types, table, checked, args.len())->Ok_0,
                order,
            ).take(n as int),
        ),
    decreases n,
{
    let steps = spec_encode_prefix(args, param_types, table, checked, args.len())->Ok_0;
    let moved = reordered(steps, order);
    if n > 0 {
        lemma_reordered_prefix(args, param_types, order, table, checked, (n - 1) as nat);
        lemma_prefix_is_stepwise(args, param_types, table, checked, args.len());
        let from = order[n - 1];
        assert(step_at(args, param_types, table, checked, from) == Ok::<
            EncodeStepView,
            DiagnosticKindView,
        >(steps[from]));
        assert(reordered(args, order)[n - 1] == args[from]);
        assert(reordered(param_types, order)[n - 1] == param_types[from]);
        assert(moved.take(n - 1).push(steps[from]) =~= moved.take(n as int));
    } else {
        assert(moved.take(0) =~= Seq::<EncodeStepView>::empty());
    }
}

/// Binding follows the call whatever its order: where the arguments can be
/// bound, the same arguments with their parameters, read in any other
/// order, can be bound too, and the steps come out in that order. Nothing is
/// sorted.
pub proof fn lemma_encoding_follows_reordering(
    args: Seq<ArgSpecView>,
    param_types: Seq<Seq<char>>,
    order: Seq<int>,
    table: Map<Seq<char>, TypeRuleView>,
    checked: bool,
)
    requires
        forall|i: int| 0 <= i < order.len() ==> 0 <= #[trigger] order[i] < args.len(),
        spec_arg_encoding(args, param_types, table, checked) is Ok,
    ensures
        spec_arg_encoding(reordered(args, order), reordered(param_types, order), table, checked)
            == Ok::<Seq<EncodeStepView>, DiagnosticKindView>(
            reordered(spec_arg_encoding(args, param_types, table, checked)->Ok_0, order),
        ),
{
    lemma_reordered_prefix(args, param_types, order, table, checked, order.len());
    let steps = spec_arg_encoding(args, param_types, table, checked)->Ok_0;
    assert(reordered(steps, order).take(order.len() as int) =~= reordered(steps, order));
}

/// Generates the code that binds `args` to the parameters of types
/// `param_types`, in the order given.
pub fn generate_arg_encoding(
    args: &Vec<ArgSpec>,
    param_types: &Vec<TypeId>,
    types: &TypeMapping,
    checked: bool,
) -> (code: Result<EncodingCode, DiagnosticKind>)
    ensures
        match code {
            Ok(c) => {
                &&& spec_arg_encoding(arg_views(args@), type_views(param_types@), types@, checked)
                    == Ok::<Seq<EncodeStepView>, DiagnosticKindView>(c@)
                &&& c@.len() == args@.len()
                &&& forall|i: int|
                    0 <= i < c@.len() ==> (#[trigger] c@[i]).argument == args@[i]@
                        && c@[i].param_type == param_types@[i]@
            },
            Err(e) => spec_arg_encoding(arg_views(args@), type_views(param_types@), types@, checked)
                == Err::<Seq<EncodeStepView>, DiagnosticKindView>(e@),
        },
{
    if args.len() != param_types.len() {
        return Err(
            DiagnosticKind::ArgCountMismatch { expected: param_types.len(), actual: args.len() },
        );
    }
    let ghost arg_seq = arg_views(args@);
    let ghost type_seq = type_views(param_types@);
    let mut steps: Vec<EncodeStep> = Vec::new();
    let mut i: usize = 0;
    assert(steps@.map_values(|s: EncodeStep| s@) =~= Seq::<EncodeStepView>::empty());
    while i < args.len()
        invariant
            i <= args.len(),
            args.len() == param_types.len(),
            arg_seq == arg_views(args@),
            type_seq == type_views(param_types@),
            spec_encode_prefix(arg_seq, type_seq, types@, checked, i as nat) == Ok::<
                Seq<EncodeStepView>,
                DiagnosticKindView,
            >(steps@.map_values(|s: EncodeStep| s@)),
        decreases args.len() - i,
    {
        let constraint = if checked {
            match types.map(&param_types[i], false, true) {
                Ok(mapped) => Some(mapped.target),
                Err(e) => {
                    proof {
                        lemma_prefix_failure_persists(
                            arg_seq,
                            type_seq,
                            types@,
                            checked,
                            (i + 1) as nat,
                            args.len() as nat,
                        );
                    }
                    return Err(e);
                },
            }
        } else {
            None
        };
        let step = EncodeStep {
            argument: args[i].clone(),
            param_type: param_types[i].clone(),
            constraint,
        };
        proof {
            let before = steps@.map_values(|s: EncodeStep| s@);
            assert(steps@.push(step).map_values(|s: EncodeStep| s@) =~= before.push(step@));
        }
        steps.push(step);
        i += 1;
    }
    proof {
        lemma_encoding_keeps_order(arg_seq, type_seq, types@, checked);
    }
    Ok(EncodingCode { steps })
}

} // verus!
