use vstd::prelude::*;
use crate::backend::Host;
use crate::error::IoError;
use crate::handle::{Handle, TryFromHandleError};
use crate::list::{devices, DeviceList};

verus! {

/// What the probe cursor yields for a device once binding it was tried: the
/// probe; a transfer failure, as an error item; or nothing, when the device
/// is passed over (not a probe, or an unknown major version).
pub fn binding_item<U>(bound: Result<Handle<U>, (U, TryFromHandleError)>) -> (r: Option<
    Result<Handle<U>, IoError>,
>)
    ensures
        bound matches Ok(h) ==> r == Some(Ok::<Handle<U>, IoError>(h)),
        bound matches Err((_, TryFromHandleError::IoError(e))) ==> r == Some(
            Err::<Handle<U>, IoError>(e),
        ),
        bound matches Err((_, TryFromHandleError::InvalidVendorProductId(_, _))) ==> r is None,
        bound matches Err((_, TryFromHandleError::UnsupportedVersion(_))) ==> r is None,
{
    match bound {
        Ok(h) => Some(Ok(h)),
        Err((_usb, TryFromHandleError::IoError(e))) => Some(Err(e)),
        Err(_) => None,
    }
}

/// The devices of a host, looked at as probes.
pub struct HandleList<H: Host> {
    host: H,
    inner: DeviceList<H::Device>,
}

/// Lists the devices that `host` reports, to be opened as probes.
pub fn handles<H: Host>(host: H) -> (r: Result<HandleList<H>, IoError>)
    ensures
        r matches Ok(list) ==> list.wf(),
{
    let inner = devices(&host)?;
    Ok(HandleList { host, inner })
}

impl<H: Host> HandleList<H> {
    pub closed spec fn devices(&self) -> &DeviceList<H::Device> {
        &self.inner
    }

    pub open spec fn wf(&self) -> bool {
        self.devices().wf()
    }

    /// A fresh cursor at the first device.
    pub fn iter(&self) -> (r: Handles<'_, H>)
        ensures
            r.list() == self,
            r.position() == 0,
    {
        Handles { list: self, index: 0 }
    }

    /// The number of device entries, probes or not.
    pub fn len(&self) -> (r: usize)
        ensures
            r == self.devices().view().len(),
    {
        self.inner.len()
    }
}

/// A cursor that opens the devices of a list one after another and yields
/// those that are probes.
pub struct Handles<'a, H: Host> {
    list: &'a HandleList<H>,
    index: usize,
}

impl<'a, H: Host> Handles<'a, H> {
    pub closed spec fn list(&self) -> &'a HandleList<H> {
        self.list
    }

    pub closed spec fn position(&self) -> int {
        self.index as int
    }

    pub open spec fn wf(&self) -> bool {
        0 <= self.position() <= self.list().devices().view().len()
    }

    /// The next probe. Devices that cannot be opened, that are not probes or
    /// that report an unknown major version are passed over; a transfer
    /// failure while binding a probe is yielded as an error item; an error
    /// item of the device list is yielded once and ends the sequence. Once it
    /// returned `None` it always does.
    pub fn next(&mut self) -> (r: Option<Result<Handle<H::Handle>, IoError>>)
        requires
            old(self).wf(),
        ensures
            final(self).wf(),
            final(self).list() == old(self).list(),
            old(self).position() <= final(self).position(),
            r is None ==> final(self).position() == final(self).list().devices().view().len(),
            r is Some ==> old(self).position() < final(self).position(),
            r matches Some(Ok(h)) ==> h.wf(),
            old(self).position() < old(self).list().devices().view().len() ==> (old(
                self,
            ).list().devices().view()[old(self).position()] matches Err(e) ==> (r == Some(
                Err::<Handle<H::Handle>, IoError>(e),
            ) && final(self).position() == final(self).list().devices().view().len())),
            r is None ==> forall|i: int|
                old(self).position() <= i < old(self).list().devices().view().len()
                    ==> #[trigger] old(self).list().devices().view()[i] is Ok,
            r matches Some(Ok(_)) ==> forall|i: int|
                old(self).position() <= i < final(self).position()
                    ==> #[trigger] old(self).list().devices().view()[i] is Ok,
    {
        let n = self.list.inner.len();
        while self.index < n
            invariant
                self.list == old(self).list,
                n == self.list.devices().view().len(),
                old(self).position() <= self.index <= n,
                forall|i: int|
                    old(self).position() <= i < self.index ==> #[trigger] self.list.devices().view()[i] is Ok,
            decreases n - self.index,
        {
            let entry = self.list.inner.get(self.index);
            match entry {
                Err(e) => {
                    self.index = n;
                    return Some(Err(*e));
                },
                Ok(device) => {
                    self.index = self.index + 1;
                    let usb = match self.list.host.open(device) {
                        Ok(usb) => usb,
                        Err(_) => continue,
                    };
                    match binding_item(Handle::try_from(usb)) {
                        Some(item) => return Some(item),
                        None => continue,
                    }
                },
            }
        }
        None
    }
}

} // verus!
