//! TCP listeners: whether a port is in LISTEN state, optionally on a given
//! local address.
//!
//! Collected fields: `listening` and, when listening, `local_address`.

use vstd::prelude::*;
use crate::collectors::{
    check_ctn_type, config_error, failed_error, find_field, first_field, incompatible_reason,
    BehaviorHints,
};
use crate::executors::{debug_text, debug_value};
use crate::commands::tcp_listener::TcpListenerResult;
use crate::contract::CtnContract;
use crate::model::{
    concat2, concat3, data_fields, has_method, i64_to_decimal, method_view, object_fields,
    signed_decimal, CollectedData, CollectionError, CollectionMethod, CollectionMethodType,
    ExecutableObject, MethodView, ResolvedValue, ValueView,
};
use crate::numfmt::{decimal, parse_u64_radix, parse_unsigned, u64_to_decimal};
use crate::text::{chars_eq, chars_of, lower_chars, str_to_lowercase, string_from_chars};

verus! {

/// Collector for TCP listeners.
#[derive(Debug)]
pub struct TcpListenerCollector {
    id: String,
}

/// The port an object names, or why it names none: an integer field
/// `port` must lie from 1 to 65535, a string field `port` must read as a
/// number from 1 to 65535, and a field of another kind is refused.
pub open spec fn port_field(o: ExecutableObject) -> Result<u16, Seq<char>> {
    match first_field(object_fields(o), "port"@) {
        Some(ValueView::Int(i)) => if 1 <= i <= 65535 {
            Ok(i as u16)
        } else {
            Err("Port "@ + signed_decimal(i) + " out of range (1-65535)"@)
        },
        Some(ValueView::Str(s)) => match parse_unsigned(s, 10) {
            Some(v) => if 1 <= v <= 65535 {
                Ok(v as u16)
            } else {
                Err("Invalid port number: "@ + s)
            },
            None => Err("Invalid port number: "@ + s),
        },
        Some(v) => Err("Port must be an integer, got "@ + debug_text(v)),
        None => Err("Missing required field 'port'"@),
    }
}

/// The port an object names, if it names one.
pub open spec fn object_port(o: ExecutableObject) -> Option<u16> {
    match port_field(o) {
        Ok(p) => Some(p),
        Err(_) => None,
    }
}

/// The first string field named `name`.
pub open spec fn first_string_field(fs: Seq<(Seq<char>, ValueView)>, name: Seq<char>) -> Option<
    Seq<char>,
>
    decreases fs.len(),
{
    if fs.len() == 0 {
        None
    } else {
        match fs[0].1 {
            ValueView::Str(s) => if fs[0].0 == name {
                Some(s)
            } else {
                first_string_field(fs.drop_first(), name)
            },
            _ => first_string_field(fs.drop_first(), name),
        }
    }
}

/// The host an object filters on: its first string field `host`, unless
/// that reads `any` in any case.
pub open spec fn object_host(o: ExecutableObject) -> Option<Seq<char>> {
    match first_string_field(object_fields(o), "host"@) {
        Some(h) => if str_to_lowercase(h) == "any"@ {
            None
        } else {
            Some(h)
        },
        None => None,
    }
}

/// The fields recorded for a port check.
pub open spec fn listener_fields(listening: bool, addr: Option<Seq<char>>) -> Seq<
    (Seq<char>, ValueView),
> {
    seq![("listening"@, ValueView::Bool(listening))] + match addr {
        Some(a) => seq![("local_address"@, ValueView::Str(a))],
        None => Seq::empty(),
    }
}

/// The record of a port check.
pub open spec fn listener_method(port: u16, host: Option<Seq<char>>, via_ip_helper: bool) -> MethodView {
    MethodView {
        method_type: CollectionMethodType::SocketInspection,
        description: if via_ip_helper {
            "Check TCP port listener state via Windows IP Helper API"@
        } else {
            "Check TCP port listener state via /proc/net/tcp"@
        },
        target: Some("tcp:"@ + decimal(port as nat)),
        command: None,
        inputs: seq![("port"@, decimal(port as nat))] + match host {
            Some(h) => seq![("host_filter"@, h)],
            None => Seq::empty(),
        },
    }
}

impl TcpListenerCollector {
    /// The collector's id.
    pub closed spec fn id_view(&self) -> Seq<char> {
        self.id@
    }

    /// A collector with id `tcp_listener_collector`.
    pub fn new() -> (res: Self)
        ensures
            res.id_view() == "tcp_listener_collector"@,
    {
        TcpListenerCollector { id: "tcp_listener_collector".to_string() }
    }

    /// The collector's id.
    pub fn collector_id(&self) -> (res: &str)
        ensures
            res@ == self.id_view(),
    {
        self.id.as_str()
    }

    /// The CTN types the collector serves.
    pub fn supported_ctn_types(&self) -> (res: Vec<String>)
        ensures
            res@.len() == 1,
            res@[0]@ == "tcp_listener"@,
    {
        let mut v = Vec::new();
        v.push("tcp_listener".to_string());
        v
    }

    /// Each port is checked on its own.
    pub fn supports_batch_collection(&self) -> (res: bool)
        ensures
            !res,
    {
        false
    }

    /// Accepts only the tcp_listener contract.
    pub fn validate_ctn_compatibility(&self, contract: &CtnContract) -> (res: Result<
        (),
        CollectionError,
    >)
        ensures
            res is Ok <==> contract.ctn_type@ == "tcp_listener"@,
            res matches Err(e) ==> e matches CollectionError::CtnContractValidation { reason }
                && reason@ == incompatible_reason("tcp_listener"@, contract.ctn_type@),
    {
        check_ctn_type(&contract.ctn_type, "tcp_listener")
    }

    /// The port the object names.
    pub fn extract_port(&self, object: &ExecutableObject) -> (res: Result<u16, CollectionError>)
        ensures
            match port_field(*object) {
                Ok(p) => res == Ok::<u16, CollectionError>(p),
                Err(why) => res matches Err(e) && config_error(e, *object, why),
            },
    {
        let reason = match find_field(object, "port") {
            Some(ResolvedValue::Integer(p)) => {
                if 1 <= *p && *p <= 65535 {
                    return Ok(*p as u16);
                }
                let shown = string_from_chars(&i64_to_decimal(*p));
                concat3("Port ", shown.as_str(), " out of range (1-65535)")
            },
            Some(ResolvedValue::String(s)) => {
                match parse_u64_radix(&chars_of(s.as_str()), 10) {
                    Some(v) => {
                        if 1 <= v && v <= 65535 {
                            return Ok(v as u16);
                        }
                    },
                    None => {},
                }
                concat2("Invalid port number: ", s.as_str())
            },
            Some(v) => concat2("Port must be an integer, got ", debug_value(v).as_str()),
            None => "Missing required field 'port'".to_string(),
        };
        Err(CollectionError::InvalidObjectConfiguration { object_id: object.identifier.clone(), reason })
    }

    /// The host the object filters on, if any (`any` means none).
    pub fn extract_host(&self, object: &ExecutableObject) -> (res: Option<String>)
        ensures
            match object_host(*object) {
                Some(h) => res matches Some(r) && r@ == h,
                None => res is None,
            },
    {
        let ghost fs = object_fields(*object);
        let n = chars_of("host");
        let mut i: usize = 0;
        assert(fs.skip(0) =~= fs);
        while i < object.fields.len()
            invariant
                i <= object.fields@.len(),
                n@ == "host"@,
                fs == object_fields(*object),
                first_string_field(fs, "host"@) == first_string_field(fs.skip(i as int), "host"@),
            decreases object.fields.len() - i,
        {
            assert(fs.skip(i as int)[0] == (
                object.fields@[i as int].name@,
                object.fields@[i as int].value@,
            ));
            assert(fs.skip(i as int).drop_first() =~= fs.skip(i + 1));
            if chars_eq(&chars_of(object.fields[i].name.as_str()), &n) {
                match &object.fields[i].value {
                    ResolvedValue::String(s) => {
                        if chars_eq(&lower_chars(&chars_of(s.as_str())), &chars_of("any")) {
                            return None;
                        }
                        return Some(s.clone());
                    },
                    _ => {},
                }
            }
            i = i + 1;
        }
        None
    }

    /// Decides what to check for an object: the contract must be the
    /// tcp_listener contract, and the object must name a port; the host
    /// filter is optional.
    pub fn collect_for_ctn_with_hints(
        &self,
        object: &ExecutableObject,
        contract: &CtnContract,
        _hints: &BehaviorHints,
    ) -> (res: Result<(u16, Option<String>), CollectionError>)
        ensures
            contract.ctn_type@ != "tcp_listener"@ ==> (res matches Err(e) && e matches CollectionError::CtnContractValidation {
                reason,
            } && reason@ == incompatible_reason("tcp_listener"@, contract.ctn_type@)),
            contract.ctn_type@ == "tcp_listener"@ ==> match port_field(*object) {
                Ok(p) => res matches Ok(r) && r.0 == p && match object_host(*object) {
                    Some(h) => r.1 matches Some(x) && x@ == h,
                    None => r.1 is None,
                },
                Err(why) => res matches Err(e) && config_error(e, *object, why),
            },
    {
        self.validate_ctn_compatibility(contract)?;
        let port = self.extract_port(object)?;
        Ok((port, self.extract_host(object)))
    }

    /// Turns the outcome of a port check into collected data: a check that
    /// reports an error is a failed collection. `via_ip_helper` tells
    /// whether the check used the Windows IP Helper API (else
    /// `/proc/net/tcp`), as the method record says.
    pub fn finish_collection(
        &self,
        object: &ExecutableObject,
        port: u16,
        host_filter: &Option<String>,
        result: TcpListenerResult,
        via_ip_helper: bool,
    ) -> (res: Result<CollectedData, CollectionError>)
        ensures
            result.error is Some ==> (res matches Err(e) && failed_error(
                e,
                *object,
                result.error.unwrap()@,
            )),
            result.error is None ==> (res matches Ok(d) && {
                &&& d.object_id@ == object.identifier@
                &&& d.ctn_type@ == "tcp_listener"@
                &&& d.collector_id@ == self.id_view()
                &&& has_method(
                    d,
                    listener_method(port, crate::text::opt_view(*host_filter), via_ip_helper),
                )
                &&& data_fields(d) == listener_fields(
                    result.listening,
                    crate::text::opt_view(result.local_address),
                )
            }),
    {
        match result.error {
            Some(e) => {
                return Err(
                    CollectionError::CollectionFailed { object_id: object.identifier.clone(), reason: e },
                );
            },
            None => {},
        }
        let p = string_from_chars(&u64_to_decimal(port as u64));
        let mut inputs: Vec<(String, String)> = Vec::new();
        inputs.push(("port".to_string(), p.clone()));
        match host_filter {
            Some(h) => inputs.push(("host_filter".to_string(), h.clone())),
            None => {},
        }
        assert(inputs@.map_values(|q: (String, String)| (q.0@, q.1@)) =~= seq![("port"@, p@)]
            + match crate::text::opt_view(*host_filter) {
            Some(h) => seq![("host_filter"@, h)],
            None => Seq::<(Seq<char>, Seq<char>)>::empty(),
        });
        let description = if via_ip_helper {
            "Check TCP port listener state via Windows IP Helper API"
        } else {
            "Check TCP port listener state via /proc/net/tcp"
        };
        let method = CollectionMethod {
            method_type: CollectionMethodType::SocketInspection,
            description: description.to_string(),
            target: Some(concat2("tcp:", p.as_str())),
            command: None,
            inputs,
        };
        let mut data = CollectedData::new(
            object.identifier.clone(),
            "tcp_listener".to_string(),
            self.id.clone(),
        );
        data.set_method(method);
        let ghost addr = crate::text::opt_view(result.local_address);
        data.add_field("listening".to_string(), ResolvedValue::Boolean(result.listening));
        match result.local_address {
            Some(a) => data.add_field("local_address".to_string(), ResolvedValue::String(a)),
            None => {},
        }
        assert(data_fields(data) =~= listener_fields(result.listening, addr));
        Ok(data)
    }
}

} // verus!
