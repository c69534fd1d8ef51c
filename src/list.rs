use vstd::prelude::*;
use crate::backend::Host;
use crate::error::IoError;

verus! {

/// The entries of `s` up to and including its first error item: a failure
/// while walking the system's list ends the sequence.
pub open spec fn upto_error<D>(s: Seq<Result<D, IoError>>) -> Seq<Result<D, IoError>>
    decreases s.len(),
{
    if s.len() == 0 {
        s
    } else if s[0] is Err {
        seq![s[0]]
    } else {
        seq![s[0]] + upto_error(s.drop_first())
    }
}

/// Only the last entry may be an error item.
pub open spec fn ends_at_error<D>(s: Seq<Result<D, IoError>>) -> bool {
    forall|i: int| 0 <= i < s.len() - 1 ==> #[trigger] s[i] is Ok
}

proof fn lemma_upto_error_prefix<D>(s: Seq<Result<D, IoError>>, i: int)
    requires
        0 <= i <= s.len(),
        forall|j: int| 0 <= j < i ==> #[trigger] s[j] is Ok,
    ensures
        i < s.len() && s[i] is Err ==> upto_error(s) == s.take(i + 1),
        i == s.len() ==> upto_error(s) == s,
    decreases i,
{
    if i > 0 {
        let t = s.drop_first();
        assert forall|j: int| 0 <= j < i - 1 implies #[trigger] t[j] is Ok by {
            assert(s[j + 1] is Ok);
        }
        lemma_upto_error_prefix(t, i - 1);
        assert(s =~= seq![s[0]] + t);
        if i < s.len() && s[i] is Err {
            assert(s.take(i + 1) =~= seq![s[0]] + t.take(i));
        }
    } else {
        if s.len() > 0 && s[0] is Err {
            assert(s.take(1) =~= seq![s[0]]);
        }
    }
}

proof fn lemma_upto_error_ends<D>(s: Seq<Result<D, IoError>>)
    ensures
        ends_at_error(upto_error(s)),
        upto_error(s).len() <= s.len(),
    decreases s.len(),
{
    if s.len() > 0 && s[0] is Ok {
        lemma_upto_error_ends(s.drop_first());
        let u = upto_error(s);
        let t = upto_error(s.drop_first());
        assert forall|i: int| 0 <= i < u.len() - 1 implies #[trigger] u[i] is Ok by {
            if i > 0 {
                assert(u[i] == t[i - 1]);
            }
        }
    }
}

/// The devices present when the list was taken. Cursors over one list are
/// independent and see the same entries.
pub struct DeviceList<D> {
    entries: Vec<Result<D, IoError>>,
}

impl<D> DeviceList<D> {
    pub closed spec fn view(&self) -> Seq<Result<D, IoError>> {
        self.entries@
    }

    pub open spec fn wf(&self) -> bool {
        ends_at_error(self.view())
    }

    /// A list of the entries that the system reported, cut after the first
    /// error item.
    pub fn from_entries(entries: Vec<Result<D, IoError>>) -> (r: DeviceList<D>)
        ensures
            r.view() == upto_error(entries@),
            r.wf(),
    {
        let mut entries = entries;
        let ghost s = entries@;
        let mut i: usize = 0;
        while i < entries.len() && entries[i].is_ok()
            invariant
                entries@ == s,
                0 <= i <= s.len(),
                forall|j: int| 0 <= j < i ==> #[trigger] s[j] is Ok,
            decreases s.len() - i,
        {
            i += 1;
        }
        proof {
            lemma_upto_error_prefix(s, i as int);
            lemma_upto_error_ends(s);
        }
        if i < entries.len() {
            entries.truncate(i + 1);
            assert(entries@ =~= s.take(i + 1));
        }
        DeviceList { entries }
    }

    /// The number of entries, an error item included.
    pub fn len(&self) -> (r: usize)
        ensures
            r == self.view().len(),
    {
        self.entries.len()
    }

    /// The entry at position `i`.
    pub fn get(&self, i: usize) -> (r: &Result<D, IoError>)
        requires
            i < self.view().len(),
        ensures
            *r == self.view()[i as int],
    {
        &self.entries[i]
    }

    /// A fresh cursor at the first entry.
    pub fn iter(&self) -> (r: Devices<'_, D>)
        ensures
            r.list() == self,
            r.position() == 0,
    {
        Devices { list: self, index: 0 }
    }

    /// An owning cursor at the first entry.
    pub fn into_iter(self) -> (r: DeviceIntoIter<D>)
        ensures
            r.remaining() == self.view(),
    {
        DeviceIntoIter { rest: self.entries }
    }
}

/// Lists the devices that `host` reports as present.
pub fn devices<H: Host>(host: &H) -> (r: Result<DeviceList<H::Device>, IoError>)
    ensures
        r matches Ok(list) ==> list.wf(),
{
    let entries = host.available()?;
    Ok(DeviceList::from_entries(entries))
}

/// A cursor over a device list; once past the last entry it stays there.
pub struct Devices<'a, D> {
    list: &'a DeviceList<D>,
    index: usize,
}

impl<'a, D> Devices<'a, D> {
    pub closed spec fn list(&self) -> &'a DeviceList<D> {
        self.list
    }

    pub closed spec fn position(&self) -> int {
        self.index as int
    }

    pub open spec fn wf(&self) -> bool {
        0 <= self.position() <= self.list().view().len()
    }

    /// The entry at the cursor, after which the cursor moves on; `None` at
    /// the end.
    pub fn next(&mut self) -> (r: Option<&'a Result<D, IoError>>)
        requires
            old(self).wf(),
        ensures
            final(self).wf(),
            final(self).list() == old(self).list(),
            old(self).position() < old(self).list().view().len() ==> r == Some(
                &old(self).list().view()[old(self).position()],
            ) && final(self).position() == old(self).position() + 1,
            old(self).position() == old(self).list().view().len() ==> r is None
                && final(self).position() == old(self).position(),
    {
        if self.index < self.list.entries.len() {
            let e = &self.list.entries[self.index];
            self.index = self.index + 1;
            Some(e)
        } else {
            None
        }
    }
}

/// An owning cursor over a device list.
pub struct DeviceIntoIter<D> {
    rest: Vec<Result<D, IoError>>,
}

impl<D> DeviceIntoIter<D> {
    pub closed spec fn remaining(&self) -> Seq<Result<D, IoError>> {
        self.rest@
    }

    /// Takes the next entry; `None` once all were taken.
    pub fn next(&mut self) -> (r: Option<Result<D, IoError>>)
        ensures
            old(self).remaining().len() == 0 ==> r is None && final(self).remaining().len() == 0,
            old(self).remaining().len() > 0 ==> r == Some(old(self).remaining()[0])
                && final(self).remaining() == old(self).remaining().drop_first(),
    {
        if self.rest.len() == 0 {
            None
        } else {
            let e = self.rest.remove(0);
            assert(self.rest@ =~= old(self).rest@.drop_first());
            Some(e)
        }
    }
}

} // verus!
