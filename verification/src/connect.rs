use vstd::prelude::*;
use vstd::string::StringSliceAdditionalSpecFns;
use vstd::utf8::{
    encode_utf8, encode_utf8_valid_utf8, is_char_boundary_iff_not_is_continuation_byte,
    is_char_boundary_start_end_of_seq,
};
use crate::strings::{string_from_utf8_lossy, utf8_lossy};

use crate::connect_options::{
    ConnectOption, ConnectStructFlags, ConnectStructs, CONNECT_HAS_BNO, CONNECT_HAS_CD,
    CONNECT_HAS_CSP, CONNECT_HAS_SCO,
};
use crate::constants::{
    MQCNO_GENERATE_CONN_TAG, MQCNO_HANDLE_SHARE_BLOCK, MQCNO_HANDLE_SHARE_NONE,
    MQCNO_HANDLE_SHARE_NO_BLOCK, MQCNO_VERSION_2, MQCNO_VERSION_3, MQCNO_VERSION_4,
    MQCNO_VERSION_5, MQCNO_VERSION_8, MQ_CONN_TAG_LENGTH,
};
use crate::structs::{spec_raised, MqStruct, Mqcno};
use crate::types::{display_id, display_id_string, Identifier, QueueManagerName};

verus! {

/// The identifier of a connection.
#[derive(Debug, Clone, Copy)]
pub struct ConnectionId(pub Identifier);

impl ConnectionId {
    /// The identifier as `ID:` and hexadecimal digits.
    pub fn display_string(&self) -> (s: String)
        ensures
            s@ == display_id(self.0@),
    {
        display_id_string(&self.0)
    }
}

/// The tag of a connection.
#[derive(Debug, Clone, Copy)]
pub struct ConnTag(pub [u8; MQ_CONN_TAG_LENGTH]);

/// The length of bytes without their trailing nul bytes.
pub open spec fn spec_trim_nul_len(b: Seq<u8>) -> nat
    decreases b.len(),
{
    if b.len() == 0 {
        0
    } else if b.last() == 0u8 {
        spec_trim_nul_len(b.drop_last())
    } else {
        b.len()
    }
}

impl ConnTag {
    /// The tag as text: its bytes as UTF-8 with invalid sequences replaced, without trailing
    /// nul characters (in UTF-8, the trailing nul bytes); none when nothing is left.
    pub fn text(&self) -> (r: Option<String>)
        ensures
            ({
                let lb = encode_utf8(utf8_lossy(self.0@));
                let k = spec_trim_nul_len(lb);
                &&& k == 0 ==> r is None
                &&& k > 0 ==> (r matches Some(t) && encode_utf8(t@) == lb.take(k as int))
            }),
    {
        let s = string_from_utf8_lossy(self.0.as_slice());
        let st = s.as_str();
        let b = st.as_bytes();
        let ghost lb = b@;
        let mut k: usize = b.len();
        assert(lb.take(k as int) =~= lb);
        while k > 0 && b[k - 1] == 0
            invariant
                k <= lb.len(),
                b@ == lb,
                forall|q: int| k <= q < lb.len() ==> lb[q] == 0u8,
                spec_trim_nul_len(lb.take(k as int)) == spec_trim_nul_len(lb),
            decreases k,
        {
            assert(lb.take(k as int).drop_last() =~= lb.take(k - 1));
            k = k - 1;
        }
        if k == 0 {
            return None;
        }
        assert(spec_trim_nul_len(lb.take(k as int)) == k);
        proof {
            encode_utf8_valid_utf8(st@);
            if k < lb.len() {
                assert(lb[k as int] == 0u8);
                is_char_boundary_iff_not_is_continuation_byte(lb, k as int);
            } else {
                is_char_boundary_start_end_of_seq(lb);
            }
        }
        let (head, _) = st.split_at(k);
        assert(head.spec_bytes() =~= lb.take(k as int));
        Some(head.to_owned())
    }
}

/// How a connection may be shared between threads: one of [`ThreadNone`], [`ThreadNoBlock`]
/// or [`ThreadBlock`].
pub trait Threading {
    /// The handle sharing option (`MQCNO_HANDLE_SHARE_*`).
    spec fn spec_handle_share() -> i32;

    /// The handle sharing option (`MQCNO_HANDLE_SHARE_*`).
    fn handle_share() -> (r: i32)
        ensures
            r == Self::spec_handle_share(),
    ;
}

/// The connection is used by the thread that made it only (`MQCNO_HANDLE_SHARE_NONE`).
#[derive(Debug, Clone, Copy)]
pub struct ThreadNone;

/// The connection can move between threads, one at a time (`MQCNO_HANDLE_SHARE_NO_BLOCK`).
#[derive(Debug, Clone, Copy)]
pub struct ThreadNoBlock;

/// The connection can be used by several threads, which wait for each other
/// (`MQCNO_HANDLE_SHARE_BLOCK`).
#[derive(Debug, Clone, Copy)]
pub struct ThreadBlock;

impl Threading for ThreadNone {
    open spec fn spec_handle_share() -> i32 {
        MQCNO_HANDLE_SHARE_NONE
    }

    fn handle_share() -> (r: i32) {
        MQCNO_HANDLE_SHARE_NONE
    }
}

impl Threading for ThreadNoBlock {
    open spec fn spec_handle_share() -> i32 {
        MQCNO_HANDLE_SHARE_NO_BLOCK
    }

    fn handle_share() -> (r: i32) {
        MQCNO_HANDLE_SHARE_NO_BLOCK
    }
}

impl Threading for ThreadBlock {
    open spec fn spec_handle_share() -> i32 {
        MQCNO_HANDLE_SHARE_BLOCK
    }

    fn handle_share() -> (r: i32) {
        MQCNO_HANDLE_SHARE_BLOCK
    }
}

/// The version of the connection options once the used structures are attached to them:
/// balancing options need version 8, a channel definition version 2, a TLS configuration
/// version 4 and security parameters version 5.
pub open spec fn spec_attach_version(version: i32, mask: ConnectStructFlags) -> i32 {
    let v1 = if mask & CONNECT_HAS_BNO != 0 {
        spec_raised(version, MQCNO_VERSION_8)
    } else {
        version
    };
    let v2 = if mask & CONNECT_HAS_CD != 0 {
        spec_raised(v1, MQCNO_VERSION_2)
    } else {
        v1
    };
    let v3 = if mask & CONNECT_HAS_SCO != 0 {
        spec_raised(v2, MQCNO_VERSION_4)
    } else {
        v2
    };
    if mask & CONNECT_HAS_CSP != 0 {
        spec_raised(v3, MQCNO_VERSION_5)
    } else {
        v3
    }
}

/// The structures of a connection once the used structures are attached and the handle
/// sharing option is added.
pub open spec fn spec_planned<'co>(a: ConnectStructs<'co>, mask: ConnectStructFlags, handle_share: i32) -> ConnectStructs<'co> {
    ConnectStructs {
        cno: MqStruct {
            struc: Mqcno {
                version: spec_attach_version(a.cno.struc.version, mask),
                options: a.cno.struc.options | handle_share,
                ..a.cno.struc
            },
        },
        ..a
    }
}

/// What a connection needs before the call to `MQCONNX`: the structures filled in by the
/// options, the structures used, and the queue manager to connect to.
#[derive(Debug, Clone, Copy)]
pub struct ConnectPlan<'co> {
    pub structs: ConnectStructs<'co>,
    pub mask: ConnectStructFlags,
    pub qm_name: Option<QueueManagerName>,
}

/// Prepare a connection: the options are applied to default structures, the connection
/// options are raised to the versions the used structures need and take the handle sharing
/// option.
pub fn connect_plan<'co, O: ConnectOption<'co>>(options: &O, handle_share: i32) -> (r: ConnectPlan<'co>)
    requires
        options.spec_applicable(),
    ensures
        r.qm_name == options.spec_queue_manager_name(),
        r.mask == options.spec_flags(),
        exists|d: ConnectStructs<'co>, a: ConnectStructs<'co>|
            #![trigger options.spec_apply(d, a)]
            d.is_default() && options.spec_apply(d, a) && r.structs == spec_planned(
                a,
                r.mask,
                handle_share,
            ),
{
    let qm_name = options.queue_manager_name();
    let mut structs = ConnectStructs::default_value();
    let ghost d = structs;
    let mask = options.apply_param(&mut structs);
    let ghost a = structs;
    if mask & CONNECT_HAS_BNO != 0 {
        structs.cno.set_min_version(MQCNO_VERSION_8);
    }
    if mask & CONNECT_HAS_CD != 0 {
        structs.cno.set_min_version(MQCNO_VERSION_2);
    }
    if mask & CONNECT_HAS_SCO != 0 {
        structs.cno.set_min_version(MQCNO_VERSION_4);
    }
    if mask & CONNECT_HAS_CSP != 0 {
        structs.cno.set_min_version(MQCNO_VERSION_5);
    }
    structs.cno.struc.options = structs.cno.struc.options | handle_share;
    assert(options.spec_apply(d, a));
    ConnectPlan { structs, mask, qm_name }
}

impl<'a> MqStruct<Mqcno<'a>> {
    /// Ask for the connection identifier: the options are raised to version 5.
    pub fn request_connection_id(&mut self)
        ensures
            final(self).struc == (Mqcno {
                version: spec_raised(old(self).struc.version, MQCNO_VERSION_5),
                ..old(self).struc
            }),
    {
        self.set_min_version(MQCNO_VERSION_5);
    }

    /// Ask for a generated connection tag: the option is added and the options are raised to
    /// version 3.
    pub fn request_conn_tag(&mut self)
        ensures
            final(self).struc == (Mqcno {
                version: spec_raised(old(self).struc.version, MQCNO_VERSION_3),
                options: old(self).struc.options | MQCNO_GENERATE_CONN_TAG,
                ..old(self).struc
            }),
    {
        self.struc.options = self.struc.options | MQCNO_GENERATE_CONN_TAG;
        self.set_min_version(MQCNO_VERSION_3);
    }
}

} // verus!
