//! Callback for adapter hardware events of the manager interface.

use vstd::prelude::*;
use crate::context::ClientContext;

verus! {

/// Receives manager events: adapters appearing, going away, and being
/// enabled or disabled.
pub struct BtManagerCallback {
    objpath: String,
}

impl BtManagerCallback {
    /// The identity under which this callback is registered with the remote
    /// service.
    pub closed spec fn object_path(&self) -> Seq<char> {
        self.objpath@
    }

    pub fn new(objpath: String) -> (callback: Self)
        ensures
            callback.object_path() == objpath@,
    {
        BtManagerCallback { objpath }
    }

    /// Adapter hardware was reported present or absent.
    pub fn on_hci_device_changed(
        &self,
        context: &mut ClientContext,
        hci_interface: i32,
        present: bool,
    )
        ensures
            final(context)@ == old(context)@.adapter_presence_changed(hci_interface, present),
    {
        if present {
            context.adapters.entry(hci_interface).or_insert(false);
            assert(context.adapters@ =~= old(context)@.adapter_presence_changed(
                hci_interface,
                present,
            ).adapters);
        } else {
            context.adapters.remove(&hci_interface);
        }
    }

    /// An adapter was reported enabled or disabled.
    pub fn on_hci_enabled_changed(
        &self,
        context: &mut ClientContext,
        hci_interface: i32,
        enabled: bool,
    )
        ensures
            final(context)@ == old(context)@.adapter_enabled_changed(hci_interface, enabled),
    {
        context.set_adapter_enabled(hci_interface, enabled);
    }

    /// Disconnect observers are not kept: the token is always 0.
    pub fn register_disconnect(&mut self) -> (token: u32)
        ensures
            token == 0,
            *final(self) == *old(self),
    {
        0
    }

    pub fn get_object_id(&self) -> (id: String)
        ensures
            id@ == self.object_path(),
    {
        self.objpath.clone()
    }

    /// Nothing is registered under any token, so nothing is ever removed.
    pub fn unregister(&mut self, id: u32) -> (removed: bool)
        ensures
            !removed,
            *final(self) == *old(self),
    {
        false
    }
}

} // verus!
