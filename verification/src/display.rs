use vstd::prelude::*;
use crate::features::{RawNonTableValue, Value};
use crate::status::{Error, status_kind};

verus! {

// The foreign transport mode tags.
pub const IO_MODE_I2C: i32 = 0;
pub const IO_MODE_ADL: i32 = 1;
pub const IO_MODE_USB: i32 = 2;

/// The foreign transport path record with its union flattened into plain
/// fields: the mode tag selects which fields are meaningful.
#[derive(Debug, Copy, Clone, PartialEq, Eq, Structural)]
pub struct RawIoPath {
    pub io_mode: i32,
    pub i2c_busno: i32,
    pub hiddev_devno: i32,
    pub adl_adapter_index: i32,
    pub adl_display_index: i32,
}

/// The transport-level address of a display: exactly one of the three
/// addressing schemes.
#[derive(Debug, Copy, Clone, PartialEq, Eq, PartialOrd, Ord, Hash, Structural)]
pub enum DisplayPath {
    I2c { bus_number: i32 },
    Usb { bus_number: i32, device_number: i32, hiddev_device_number: i32 },
    Adl { adapter_index: i32, display_index: i32 },
}

/// The path a raw record denotes, or nothing when the mode tag is not one of
/// the three known transports.
pub open spec fn path_from_raw_spec(path: RawIoPath, usb_bus: i32, usb_device: i32) -> Option<
    DisplayPath,
> {
    if path.io_mode == IO_MODE_I2C {
        Some(DisplayPath::I2c { bus_number: path.i2c_busno })
    } else if path.io_mode == IO_MODE_USB {
        Some(
            DisplayPath::Usb {
                bus_number: usb_bus,
                device_number: usb_device,
                hiddev_device_number: path.hiddev_devno,
            },
        )
    } else if path.io_mode == IO_MODE_ADL {
        Some(
            DisplayPath::Adl {
                adapter_index: path.adl_adapter_index,
                display_index: path.adl_display_index,
            },
        )
    } else {
        None
    }
}

impl DisplayPath {
    /// Map the foreign mode tag to the matching variant. An unrecognized tag
    /// is an explicit failure, never a fabricated path.
    pub fn from_raw(path: &RawIoPath, usb_bus: i32, usb_device: i32) -> (r: Result<
        DisplayPath,
        (),
    >)
        ensures
            r matches Ok(p) ==> path_from_raw_spec(*path, usb_bus, usb_device) == Some(p),
            r is Err <==> path_from_raw_spec(*path, usb_bus, usb_device) is None,
    {
        if path.io_mode == IO_MODE_I2C {
            Ok(DisplayPath::I2c { bus_number: path.i2c_busno })
        } else if path.io_mode == IO_MODE_USB {
            Ok(
                DisplayPath::Usb {
                    bus_number: usb_bus,
                    device_number: usb_device,
                    hiddev_device_number: path.hiddev_devno,
                },
            )
        } else if path.io_mode == IO_MODE_ADL {
            Ok(
                DisplayPath::Adl {
                    adapter_index: path.adl_adapter_index,
                    display_index: path.adl_display_index,
                },
            )
        } else {
            Err(())
        }
    }
}

/// One display record as the foreign enumeration reports it, already copied
/// out of foreign memory as plain values.
#[derive(Debug, Clone, PartialEq, Eq)]
pub struct RawDisplayRecord {
    /// The opaque display reference, valid for the process lifetime.
    pub dref: usize,
    pub dispno: i32,
    pub mfg_id: Vec<u8>,
    pub model_name: Vec<u8>,
    pub sn: Vec<u8>,
    pub edid_bytes: Vec<u8>,
    pub path: RawIoPath,
    pub usb_bus: i32,
    pub usb_device: i32,
}

/// An immutable snapshot of one discoverable display: the opaque reference
/// used to open a session, its number, identity fields both as raw bytes and
/// as lossy text, the EDID blob, and the transport path.
#[derive(Debug, Clone, PartialEq, Eq)]
pub struct DisplayInfo {
    pub handle: usize,
    pub display_number: i32,
    pub manufacturer_id: Vec<u8>,
    pub model_name: Vec<u8>,
    pub serial_number: Vec<u8>,
    pub edid: Vec<u8>,
    pub path: DisplayPath,
}

impl DisplayInfo {
    /// Whether this snapshot is the deep copy of a raw enumeration record,
    /// with the documented USB fallback for an unrecognized mode tag.
    pub open spec fn is_snapshot_of(self, raw: RawDisplayRecord) -> bool {
        &&& self.handle == raw.dref
        &&& self.display_number == raw.dispno
        &&& self.manufacturer_id@ == raw.mfg_id@
        &&& self.model_name@ == raw.model_name@
        &&& self.serial_number@ == raw.sn@
        &&& self.edid@ == raw.edid_bytes@
        &&& self.path == (match path_from_raw_spec(raw.path, raw.usb_bus, raw.usb_device) {
            Some(p) => p,
            None => DisplayPath::Usb {
                bus_number: raw.usb_bus,
                device_number: raw.usb_device,
                hiddev_device_number: -1i32,
            },
        })
    }

    /// Deep-copy a raw enumeration record into an owned snapshot. When the
    /// transport mode tag is unrecognized, a USB path with hiddev number -1
    /// is substituted rather than failing the whole enumeration: a deliberate
    /// leniency kept only here, not a general policy.
    pub fn from_raw(raw: &RawDisplayRecord) -> (info: DisplayInfo)
        ensures
            info.is_snapshot_of(*raw),
    {
        let path = match DisplayPath::from_raw(&raw.path, raw.usb_bus, raw.usb_device) {
            Ok(p) => p,
            Err(()) => DisplayPath::Usb {
                bus_number: raw.usb_bus,
                device_number: raw.usb_device,
                hiddev_device_number: -1i32,
            },
        };
        DisplayInfo {
            handle: raw.dref,
            display_number: raw.dispno,
            manufacturer_id: raw.mfg_id.clone(),
            model_name: raw.model_name.clone(),
            serial_number: raw.sn.clone(),
            edid: raw.edid_bytes.clone(),
            path,
        }
    }

    /// Interpret the foreign enumeration outcome: a zero status yields the
    /// list snapshot over the copied records (possibly empty, a valid
    /// result), any nonzero status the mapped error, never an empty list
    /// disguised as success.
    pub fn enumerate(status: i32, records: Vec<RawDisplayRecord>) -> (r: Result<
        DisplayInfoList,
        Error,
    >)
        ensures
            status == 0 <==> r is Ok,
            r matches Ok(list) ==> list.records@ == records@,
            r matches Err(e) ==> e.status == status && e.kind == status_kind(status as int),
    {
        match Error::from_status(status) {
            Ok(()) => Ok(DisplayInfoList { records }),
            Err(e) => Err(e),
        }
    }

    /// Interpret the foreign open outcome for this display: success yields a
    /// session bound to the returned handle; failure yields the mapped
    /// error and enters no open state, so nothing is owed a close.
    pub fn open(&self, status: i32, handle: usize) -> (r: Result<Display, Error>)
        ensures
            status == 0 <==> r is Ok,
            r matches Ok(d) ==> d.handle == handle,
            r matches Err(e) ==> e.status == status && e.kind == status_kind(status as int),
    {
        match Error::from_status(status) {
            Ok(()) => Ok(Display { handle }),
            Err(e) => Err(e),
        }
    }

    /// The opaque display reference used to open a session.
    pub fn raw(&self) -> (h: usize)
        ensures
            h == self.handle,
    {
        self.handle
    }

    pub fn display_number(&self) -> (n: i32)
        ensures
            n == self.display_number,
    {
        self.display_number
    }

    /// The manufacturer id as lossy text; the encoding is not guaranteed.
    pub fn manufacturer_id(&self) -> (s: String)
        ensures
            s@ == crate::text::lossy_utf8(self.manufacturer_id@),
    {
        crate::text::lossy_string(&self.manufacturer_id)
    }

    pub fn manufacturer_id_bytes(&self) -> (b: &Vec<u8>)
        ensures
            b@ == self.manufacturer_id@,
    {
        &self.manufacturer_id
    }

    /// The model name as lossy text; the encoding is not guaranteed.
    pub fn model_name(&self) -> (s: String)
        ensures
            s@ == crate::text::lossy_utf8(self.model_name@),
    {
        crate::text::lossy_string(&self.model_name)
    }

    pub fn model_name_bytes(&self) -> (b: &Vec<u8>)
        ensures
            b@ == self.model_name@,
    {
        &self.model_name
    }

    /// The serial number as lossy text; the encoding is not guaranteed.
    pub fn serial_number(&self) -> (s: String)
        ensures
            s@ == crate::text::lossy_utf8(self.serial_number@),
    {
        crate::text::lossy_string(&self.serial_number)
    }

    pub fn serial_number_bytes(&self) -> (b: &Vec<u8>)
        ensures
            b@ == self.serial_number@,
    {
        &self.serial_number
    }

    pub fn edid(&self) -> (b: &Vec<u8>)
        ensures
            b@ == self.edid@,
    {
        &self.edid
    }

    pub fn path(&self) -> (p: DisplayPath)
        ensures
            p == self.path,
    {
        self.path
    }
}

/// An owned snapshot of one enumeration: the records deep-copied out of the
/// foreign array, indexable; the foreign array itself is released by the
/// runner exactly once, per the lifecycle machine's law.
#[derive(Debug, Clone, PartialEq, Eq)]
pub struct DisplayInfoList {
    pub records: Vec<RawDisplayRecord>,
}

impl DisplayInfoList {
    pub fn len(&self) -> (n: usize)
        ensures
            n == self.records@.len(),
    {
        self.records.len()
    }

    /// Materialize the snapshot of one record.
    pub fn get(&self, index: usize) -> (info: DisplayInfo)
        requires
            index < self.records@.len(),
        ensures
            info.is_snapshot_of(self.records@[index as int]),
    {
        DisplayInfo::from_raw(&self.records[index])
    }

    /// A cursor over the list, in index order.
    pub fn iter(&self) -> (it: DisplayInfoIter)
        ensures
            it.index == 0,
    {
        DisplayInfoIter { index: 0 }
    }
}

/// A cursor over a `DisplayInfoList`, yielding materialized snapshots in
/// index order.
#[derive(Debug, Copy, Clone, PartialEq, Eq, Structural)]
pub struct DisplayInfoIter {
    pub index: usize,
}

impl DisplayInfoIter {
    /// The next snapshot of the list, advancing the cursor; nothing once the
    /// list is exhausted.
    pub fn next(&mut self, list: &DisplayInfoList) -> (r: Option<DisplayInfo>)
        ensures
            old(self).index < list.records@.len() ==> {
                &&& final(self).index == old(self).index + 1
                &&& r matches Some(info) && info.is_snapshot_of(
                    list.records@[old(self).index as int],
                )
            },
            old(self).index >= list.records@.len() ==> final(self).index == old(self).index
                && r is None,
    {
        if self.index < list.len() {
            let info = list.get(self.index);
            self.index = self.index + 1;
            Some(info)
        } else {
            None
        }
    }
}

/// An open session on one display, bound to a foreign per-open handle. The
/// handle's close is owed exactly once; the lifecycle machine in
/// `crate::session` states that law and the runner follows it on every exit
/// path.
#[derive(Debug, Copy, Clone, PartialEq, Eq, Structural)]
pub struct Display {
    pub handle: usize,
}

impl Display {
    /// Bind a session to an already-open foreign handle token.
    pub fn from_raw(handle: usize) -> (d: Display)
        ensures
            d.handle == handle,
    {
        Display { handle }
    }

    /// The underlying foreign handle token.
    pub fn raw(&self) -> (h: usize)
        ensures
            h == self.handle,
    {
        self.handle
    }

    /// Interpret the outcome of the foreign capability-string read: success
    /// yields the bytes copied out of the foreign buffer (which the runner
    /// frees after the copy, exactly once), failure the mapped error.
    pub fn capabilities_string(&self, status: i32, bytes: Vec<u8>) -> (r: Result<Vec<u8>, Error>)
        ensures
            status == 0 <==> r is Ok,
            r matches Ok(b) ==> b@ == bytes@,
            r matches Err(e) ==> e.status == status && e.kind == status_kind(status as int),
    {
        match Error::from_status(status) {
            Ok(()) => Ok(bytes),
            Err(e) => Err(e),
        }
    }

    /// Retrieve and parse this session's capabilities in one step: the
    /// mapped status decides whether the raw bytes are parsed at all; a
    /// malformed string surfaces the parse error unchanged, and no partial
    /// document is exposed.
    pub fn capabilities(&self, status: i32, bytes: &Vec<u8>) -> (r: Result<
        crate::caps::Capabilities,
        Error,
    >)
        ensures
            status != 0 ==> (r matches Err(e) && e.status == status && e.kind == status_kind(
                status as int,
            )),
            status == 0 ==> (r is Ok <==> crate::caps::parse_caps_spec(bytes@) is Some),
            status == 0 ==> (r matches Ok(c) ==> {
                let (v, feats) = crate::caps::parse_caps_spec(bytes@).unwrap();
                &&& c.version.major == v.0
                &&& c.version.minor == v.1
                &&& crate::caps::features_view(c.features@) == crate::caps::feats_to_map(feats)
            }),
            status == 0 ==> (r matches Err(e) ==> e.kind == crate::status::ErrorKind::Parse),
    {
        match Error::from_status(status) {
            Ok(()) => crate::caps::Capabilities::from_bytes(bytes),
            Err(e) => Err(e),
        }
    }

    /// Interpret the outcome of a non-table feature write: the write carries
    /// no payload back, so the result is the mapped status alone.
    /// Feature-code validity and write permission are enforced by the foreign
    /// layer and surface here as mapped errors.
    pub fn vcp_set_value(&self, status: i32) -> (r: Result<(), Error>)
        ensures
            status == 0 <==> r is Ok,
            r matches Err(e) ==> e.status == status && e.kind == status_kind(status as int),
    {
        Error::from_status(status)
    }

    /// Interpret the outcome of a non-table feature read: success yields the
    /// four value bytes copied into an owned `Value`.
    pub fn vcp_get_value(&self, status: i32, raw: &RawNonTableValue) -> (r: Result<Value, Error>)
        ensures
            status == 0 <==> r is Ok,
            r matches Ok(v) ==> v == (Value { mh: raw.mh, ml: raw.ml, sh: raw.sh, sl: raw.sl }),
            r matches Err(e) ==> e.status == status && e.kind == status_kind(status as int),
    {
        match Error::from_status(status) {
            Ok(()) => Ok(Value::from_raw(raw)),
            Err(e) => Err(e),
        }
    }

    /// Interpret the outcome of a table feature read: success yields exactly
    /// the bytes the runner copied out of the foreign buffer before freeing
    /// it (copy first, then free, exactly once — the lifecycle machine's
    /// law), so the returned length equals the foreign-reported byte count.
    pub fn vcp_get_table(&self, status: i32, bytes: Vec<u8>) -> (r: Result<Vec<u8>, Error>)
        ensures
            status == 0 <==> r is Ok,
            r matches Ok(b) ==> b@ == bytes@,
            r matches Err(e) ==> e.status == status && e.kind == status_kind(status as int),
    {
        match Error::from_status(status) {
            Ok(()) => Ok(bytes),
            Err(e) => Err(e),
        }
    }
}

} // verus!
