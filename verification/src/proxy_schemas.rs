//! The proxy-schema data model: per-manifest field labelling, with the
//! field map kept as an ordered association list.

use vstd::prelude::*;

verus! {

/// A proxy schema: labels for the fields of one manifest's data. Fields
/// without a label need no entry. The entries behave like a map keyed by
/// field name: each name appears at most once.
pub struct ProxySchema {
    /// The identifier of the manifest this schema pertains to.
    pub manifest_id: String,
    /// The name of the schema.
    pub name: String,
    /// Field names and their labels, in insertion order.
    pub fields: Vec<(String, String)>,
}

/// Records one field label collected by the creation wizard: if the field
/// was already labelled, its label is replaced in place; otherwise the
/// entry is appended. This is what keeps the entries a map.
pub fn upsert_field(fields: &mut Vec<(String, String)>, name: String, label: String)
    ensures
        (forall|i: int| 0 <= i < old(fields)@.len() ==> (#[trigger] old(fields)@[i]).0@ != name@)
            ==> final(fields)@ == old(fields)@.push((name, label)),
        (exists|i: int| 0 <= i < old(fields)@.len() && (#[trigger] old(fields)@[i]).0@ == name@)
            ==> (exists|i: int|
            {
                &&& 0 <= i < old(fields)@.len()
                &&& (#[trigger] old(fields)@[i]).0@ == name@
                &&& (forall|j: int| 0 <= j < i ==> (#[trigger] old(fields)@[j]).0@ != name@)
                &&& final(fields)@ == old(fields)@.update(i, (old(fields)@[i].0, label))
            }),
{
    let mut i: usize = 0;
    while i < fields.len()
        invariant
            0 <= i <= fields@.len(),
            fields@ == old(fields)@,
            forall|j: int| 0 <= j < i ==> (#[trigger] fields@[j]).0@ != name@,
        decreases fields@.len() - i,
    {
        if fields[i].0 == name {
            let kv = fields.remove(i);
            fields.insert(i, (kv.0, label));
            proof {
                assert(fields@ =~= old(fields)@.update(i as int, (old(fields)@[i as int].0, label)));
            }
            return ;
        }
        i = i + 1;
    }
    fields.push((name, label));
}

} // verus!
