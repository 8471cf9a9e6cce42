use vstd::prelude::*;

use crate::error::{ErrorKind, OgrCall, OgrErr};
use crate::field::{FieldValue, FieldValueView};

verus! {

/// Where the writing of one new feature stands.
pub enum WritePhase {
    /// The geometry is to be attached to the new feature.
    AttachGeometry,
    /// The index of field `i` is to be looked up by its name.
    LookupField(usize),
    /// Field `i`, found at the given index, is to be set to its value.
    SetField(usize, i32),
    /// The feature is to be submitted to the layer.
    Submit,
    /// Nothing more is to be done; the outcome is known.
    Done(Result<(), ErrorKind>),
}

/// What the native side reports back after an action.
#[derive(Clone, Copy, Debug, PartialEq, Eq, Structural)]
pub enum WriteEvent {
    /// The status a native call returned.
    Status(OgrErr),
    /// The index a field name resolved to.
    FieldIndex(i32),
    /// A field setter, which reports nothing, was called.
    Applied,
}

/// The next native call to make on the new feature.
#[derive(Debug)]
pub enum WriteAction {
    AttachGeometry,
    LookupField(String),
    SetString(i32, String),
    SetInteger(i32, i32),
    SetDouble(i32, u64),
    Submit,
    Finish(Result<(), ErrorKind>),
}

/// The phase that follows `phase` on `event`, for a feature with `n` fields
/// to set. An event that does not answer the phase's action changes nothing.
pub open spec fn next_phase(phase: WritePhase, n: nat, event: WriteEvent) -> WritePhase {
    match phase {
        WritePhase::AttachGeometry => match event {
            WriteEvent::Status(s) => if s == OgrErr::NoError {
                if n == 0 { WritePhase::Submit } else { WritePhase::LookupField(0) }
            } else {
                WritePhase::Done(Err(ErrorKind::OgrError(s, OgrCall::SetGeometryDirectly)))
            },
            _ => phase,
        },
        WritePhase::LookupField(i) => match event {
            WriteEvent::FieldIndex(idx) => WritePhase::SetField(i, idx),
            _ => phase,
        },
        WritePhase::SetField(i, _) => match event {
            WriteEvent::Applied => if i + 1 < n {
                WritePhase::LookupField((i + 1) as usize)
            } else {
                WritePhase::Submit
            },
            _ => phase,
        },
        WritePhase::Submit => match event {
            WriteEvent::Status(s) => if s == OgrErr::NoError {
                WritePhase::Done(Ok(()))
            } else {
                WritePhase::Done(Err(ErrorKind::OgrError(s, OgrCall::CreateFeature)))
            },
            _ => phase,
        },
        WritePhase::Done(_) => phase,
    }
}

/// The action that setting a field to `value` at index `idx` calls for: the
/// setter of the value's own kind, with the value unchanged.
pub open spec fn set_action_fits(a: WriteAction, idx: i32, value: FieldValueView) -> bool {
    match value {
        FieldValueView::Str(v) => match a {
            WriteAction::SetString(j, s) => j == idx && s@ == v,
            _ => false,
        },
        FieldValueView::Int(v) => match a {
            WriteAction::SetInteger(j, x) => j == idx && x == v,
            _ => false,
        },
        FieldValueView::Real(v) => match a {
            WriteAction::SetDouble(j, x) => j == idx && x == v,
            _ => false,
        },
    }
}

/// Writes one new feature: attaches its geometry, sets each named field to its
/// value in order, and submits it, stopping at the first native failure.
///
/// The caller makes the native calls: it asks `action` what to do next and
/// reports what came back through `step`, until the action is `Finish`.
pub struct FeatureWriter {
    field_names: Vec<String>,
    values: Vec<FieldValue>,
    phase: WritePhase,
}

impl FeatureWriter {
    /// The names of the fields to set, in order.
    pub closed spec fn names(&self) -> Seq<Seq<char>> {
        self.field_names@.map_values(|s: String| s@)
    }

    /// The values the fields are set to, in order.
    pub closed spec fn values(&self) -> Seq<FieldValueView> {
        self.values@.map_values(|v: FieldValue| v@)
    }

    pub closed spec fn phase(&self) -> WritePhase {
        self.phase
    }

    /// One value for each name, and a phase that points at an existing field.
    pub open spec fn wf(&self) -> bool {
        &&& self.names().len() == self.values().len()
        &&& match self.phase() {
            WritePhase::LookupField(i) => i < self.names().len(),
            WritePhase::SetField(i, _) => i < self.names().len(),
            _ => true,
        }
    }

    /// Writes a feature that has a geometry and no field values.
    pub fn create_feature() -> (r: FeatureWriter)
        ensures
            r.wf(),
            r.names().len() == 0,
            r.phase() == WritePhase::AttachGeometry,
    {
        let r = FeatureWriter { field_names: Vec::new(), values: Vec::new(), phase: WritePhase::AttachGeometry };
        assert(r.names().len() == 0);
        assert(r.values().len() == 0);
        r
    }

    /// Writes a feature whose field `field_names[i]` is set to `values[i]`.
    /// The two lists must have the same length: otherwise the feature is not
    /// written and the error says both lengths.
    pub fn create_feature_fields(field_names: &[&str], values: &[FieldValue]) -> (r: Result<FeatureWriter, ErrorKind>)
        ensures
            field_names@.len() != values@.len() <==> r is Err,
            r is Err ==> r == Err::<FeatureWriter, ErrorKind>(
                ErrorKind::FieldCountMismatch { names: field_names@.len() as usize, values: values@.len() as usize },
            ),
            r matches Ok(w) ==> {
                &&& w.wf()
                &&& w.phase() == WritePhase::AttachGeometry
                &&& w.names().len() == field_names@.len()
                &&& forall|i: int| 0 <= i < field_names@.len() ==> w.names()[i] == (#[trigger] field_names@[i])@
                &&& w.values() =~= values@.map_values(|v: FieldValue| v@)
            },
    {
        if field_names.len() != values.len() {
            return Err(ErrorKind::FieldCountMismatch { names: field_names.len(), values: values.len() });
        }
        let mut names: Vec<String> = Vec::new();
        let mut vals: Vec<FieldValue> = Vec::new();
        let mut k: usize = 0;
        while k < field_names.len()
            invariant
                field_names@.len() == values@.len(),
                k <= field_names@.len(),
                names@.len() == k,
                vals@.len() == k,
                forall|i: int| 0 <= i < k ==> (#[trigger] names@[i])@ == field_names@[i]@,
                forall|i: int| 0 <= i < k ==> (#[trigger] vals@[i])@ == values@[i]@,
            decreases field_names@.len() - k,
        {
            names.push(field_names[k].to_string());
            vals.push(values[k].duplicate());
            k = k + 1;
        }
        let w = FeatureWriter { field_names: names, values: vals, phase: WritePhase::AttachGeometry };
        assert(w.values() =~= values@.map_values(|v: FieldValue| v@));
        Ok(w)
    }

    /// The native call to make next.
    pub fn action(&self) -> (a: WriteAction)
        requires
            self.wf(),
        ensures
            match self.phase() {
                WritePhase::AttachGeometry => a is AttachGeometry,
                WritePhase::LookupField(i) => match a {
                    WriteAction::LookupField(s) => s@ == self.names()[i as int],
                    _ => false,
                },
                WritePhase::SetField(i, idx) => set_action_fits(a, idx, self.values()[i as int]),
                WritePhase::Submit => a is Submit,
                WritePhase::Done(res) => match a {
                    WriteAction::Finish(x) => x == res,
                    _ => false,
                },
            },
    {
        match &self.phase {
            WritePhase::AttachGeometry => WriteAction::AttachGeometry,
            WritePhase::LookupField(i) => WriteAction::LookupField(self.field_names[*i].clone()),
            WritePhase::SetField(i, idx) => match &self.values[*i] {
                FieldValue::StringValue(v) => WriteAction::SetString(*idx, v.clone()),
                FieldValue::IntegerValue(v) => WriteAction::SetInteger(*idx, *v),
                FieldValue::RealValue(v) => WriteAction::SetDouble(*idx, *v),
            },
            WritePhase::Submit => WriteAction::Submit,
            WritePhase::Done(res) => WriteAction::Finish(*res),
        }
    }

    /// Takes in what the last native call reported.
    pub fn step(&mut self, event: WriteEvent)
        requires
            old(self).wf(),
        ensures
            final(self).wf(),
            final(self).names() == old(self).names(),
            final(self).values() == old(self).values(),
            final(self).phase() == next_phase(old(self).phase(), old(self).names().len(), event),
    {
        let n = self.field_names.len();
        let next = match (&self.phase, event) {
            (WritePhase::AttachGeometry, WriteEvent::Status(s)) => if s == OgrErr::NoError {
                if n == 0 { WritePhase::Submit } else { WritePhase::LookupField(0) }
            } else {
                WritePhase::Done(Err(ErrorKind::OgrError(s, OgrCall::SetGeometryDirectly)))
            },
            (WritePhase::LookupField(i), WriteEvent::FieldIndex(idx)) => WritePhase::SetField(*i, idx),
            (WritePhase::SetField(i, _), WriteEvent::Applied) => if *i + 1 < n {
                WritePhase::LookupField(*i + 1)
            } else {
                WritePhase::Submit
            },
            (WritePhase::Submit, WriteEvent::Status(s)) => if s == OgrErr::NoError {
                WritePhase::Done(Ok(()))
            } else {
                WritePhase::Done(Err(ErrorKind::OgrError(s, OgrCall::CreateFeature)))
            },
            (WritePhase::AttachGeometry, _) => WritePhase::AttachGeometry,
            (WritePhase::LookupField(i), _) => WritePhase::LookupField(*i),
            (WritePhase::SetField(i, idx), _) => WritePhase::SetField(*i, *idx),
            (WritePhase::Submit, _) => WritePhase::Submit,
            (WritePhase::Done(res), _) => WritePhase::Done(*res),
        };
        self.phase = next;
    }
}

} // verus!

verus! {

/// The phase reached from `phase` after `events`, one after the other.
pub open spec fn run(phase: WritePhase, n: nat, events: Seq<WriteEvent>) -> WritePhase
    decreases events.len(),
{
    if events.len() == 0 {
        phase
    } else {
        run(next_phase(phase, n, events[0]), n, events.drop_first())
    }
}

/// The events of setting fields found at `idxs`, one field after the other:
/// its index, then the setter's completion.
pub open spec fn field_events(idxs: Seq<i32>) -> Seq<WriteEvent>
    decreases idxs.len(),
{
    if idxs.len() == 0 {
        Seq::empty()
    } else {
        seq![WriteEvent::FieldIndex(idxs[0]), WriteEvent::Applied] + field_events(idxs.drop_first())
    }
}

/// The events of a write in which every native call succeeds.
pub open spec fn success_events(idxs: Seq<i32>) -> Seq<WriteEvent> {
    seq![WriteEvent::Status(OgrErr::NoError)] + field_events(idxs) + seq![WriteEvent::Status(OgrErr::NoError)]
}

/// Running `a` and then `b` is running `a + b`.
pub proof fn lemma_run_append(phase: WritePhase, n: nat, a: Seq<WriteEvent>, b: Seq<WriteEvent>)
    ensures
        run(phase, n, a + b) == run(run(phase, n, a), n, b),
    decreases a.len(),
{
    if a.len() == 0 {
        assert(a + b =~= b);
    } else {
        assert((a + b).drop_first() =~= a.drop_first() + b);
        lemma_run_append(next_phase(phase, n, a[0]), n, a.drop_first(), b);
    }
}

/// Running a single event is taking one step.
proof fn lemma_run_one(phase: WritePhase, n: nat, e: WriteEvent)
    ensures
        run(phase, n, seq![e]) == next_phase(phase, n, e),
{
    let s = seq![e];
    assert(s.drop_first() =~= Seq::<WriteEvent>::empty());
    assert(run(next_phase(phase, n, e), n, s.drop_first()) == next_phase(phase, n, e));
}

/// Once the outcome of a write is known, no later event changes it.
pub proof fn lemma_done_is_final(res: Result<(), ErrorKind>, n: nat, events: Seq<WriteEvent>)
    ensures
        run(WritePhase::Done(res), n, events) == WritePhase::Done(res),
    decreases events.len(),
{
    if events.len() > 0 {
        lemma_done_is_final(res, n, events.drop_first());
    }
}

proof fn lemma_fields_then_submit(i: nat, n: nat, idxs: Seq<i32>)
    requires
        i + idxs.len() == n,
        idxs.len() > 0,
        n <= usize::MAX,
    ensures
        run(WritePhase::LookupField(i as usize), n, field_events(idxs)) == WritePhase::Submit,
    decreases idxs.len(),
{
    let head = seq![WriteEvent::FieldIndex(idxs[0]), WriteEvent::Applied];
    let rest = field_events(idxs.drop_first());
    lemma_run_append(WritePhase::LookupField(i as usize), n, head, rest);
    assert(field_events(idxs) == head + rest);
    let set = WritePhase::SetField(i as usize, idxs[0]);
    lemma_run_one(set, n, WriteEvent::Applied);
    lemma_run_one(WritePhase::LookupField(i as usize), n, WriteEvent::FieldIndex(idxs[0]));
    lemma_run_append(WritePhase::LookupField(i as usize), n, seq![WriteEvent::FieldIndex(idxs[0])], seq![WriteEvent::Applied]);
    assert(seq![WriteEvent::FieldIndex(idxs[0])] + seq![WriteEvent::Applied] =~= head);
    if idxs.len() == 1 {
        assert(idxs.drop_first() =~= Seq::<i32>::empty());
        assert(rest =~= Seq::<WriteEvent>::empty());
        assert(run(WritePhase::Submit, n, rest) == WritePhase::Submit);
    } else {
        lemma_fields_then_submit(i + 1, n, idxs.drop_first());
    }
}

/// A write in which every native call succeeds sets each field once, in order,
/// and ends in success.
pub proof fn lemma_all_succeed(idxs: Seq<i32>)
    requires
        idxs.len() <= usize::MAX,
    ensures
        run(WritePhase::AttachGeometry, idxs.len(), success_events(idxs)) == WritePhase::Done(Ok::<(), ErrorKind>(())),
{
    let n = idxs.len();
    let first = seq![WriteEvent::Status(OgrErr::NoError)];
    let last = seq![WriteEvent::Status(OgrErr::NoError)];
    lemma_run_append(WritePhase::AttachGeometry, n, first + field_events(idxs), last);
    lemma_run_append(WritePhase::AttachGeometry, n, first, field_events(idxs));
    lemma_run_one(WritePhase::AttachGeometry, n, WriteEvent::Status(OgrErr::NoError));
    lemma_run_one(WritePhase::Submit, n, WriteEvent::Status(OgrErr::NoError));
    if n == 0 {
        assert(field_events(idxs) =~= Seq::<WriteEvent>::empty());
        assert(run(WritePhase::Submit, n, field_events(idxs)) == WritePhase::Submit);
    } else {
        lemma_fields_then_submit(0, n, idxs);
    }
}

/// A write whose geometry cannot be attached fails with the status of that
/// call, whatever is reported afterwards.
pub proof fn lemma_attach_failure(s: OgrErr, n: nat, rest: Seq<WriteEvent>)
    requires
        s != OgrErr::NoError,
    ensures
        run(WritePhase::AttachGeometry, n, seq![WriteEvent::Status(s)] + rest)
            == WritePhase::Done(Err::<(), ErrorKind>(ErrorKind::OgrError(s, OgrCall::SetGeometryDirectly))),
{
    let res = Err::<(), ErrorKind>(ErrorKind::OgrError(s, OgrCall::SetGeometryDirectly));
    lemma_run_append(WritePhase::AttachGeometry, n, seq![WriteEvent::Status(s)], rest);
    lemma_run_one(WritePhase::AttachGeometry, n, WriteEvent::Status(s));
    lemma_done_is_final(res, n, rest);
}

/// A feature that is submitted and refused by the layer fails with the status
/// of the submission.
pub proof fn lemma_submit_failure(s: OgrErr, n: nat, rest: Seq<WriteEvent>)
    requires
        s != OgrErr::NoError,
    ensures
        run(WritePhase::Submit, n, seq![WriteEvent::Status(s)] + rest)
            == WritePhase::Done(Err::<(), ErrorKind>(ErrorKind::OgrError(s, OgrCall::CreateFeature))),
{
    let res = Err::<(), ErrorKind>(ErrorKind::OgrError(s, OgrCall::CreateFeature));
    lemma_run_append(WritePhase::Submit, n, seq![WriteEvent::Status(s)], rest);
    lemma_run_one(WritePhase::Submit, n, WriteEvent::Status(s));
    lemma_done_is_final(res, n, rest);
}

} // verus!
