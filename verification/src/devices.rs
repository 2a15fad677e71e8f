//! Audio devices: the host's devices as the library sees them, the outputs a
//! voice can be played on, and the detection of virtual audio drivers.
use vstd::prelude::*;

use crate::error::AppResult;
use crate::governance::views;
use crate::text::{contains, contains_str, join, join_strings, lower, lower_chars, chars_of, owned, push_str};

verus! {

/// An audio device of the host.
pub struct AudioDevice {
    pub id: String,
    pub name: String,
    pub is_input: bool,
    pub is_default: bool,
}

/// An output device a voice can be played on.
pub struct TtsOutputDevice {
    pub id: String,
    pub name: String,
    pub is_default: bool,
}

/// A virtual audio driver found among the outputs.
pub struct VirtualAudioDriver {
    pub name: String,
    pub device_id: String,
    pub driver_type: String,
}

/// Whether virtual audio drivers were found, and what to do if not.
pub struct VirtualDriverCheckResult {
    pub has_virtual_driver: bool,
    pub detected_drivers: Vec<VirtualAudioDriver>,
    pub recommendation: String,
    pub download_url: Option<String>,
}

/// The output devices among `devices`, in order.
pub open spec fn outputs_of(devices: Seq<AudioDevice>) -> Seq<AudioDevice>
    decreases devices.len(),
{
    if devices.len() == 0 {
        Seq::empty()
    } else {
        let rest = outputs_of(devices.drop_last());
        if devices.last().is_input {
            rest
        } else {
            rest.push(devices.last())
        }
    }
}

/// Whether `o` presents device `d` as an output.
pub open spec fn presents(o: TtsOutputDevice, d: AudioDevice) -> bool {
    o.id@ == d.id@ && o.name@ == d.name@ && o.is_default == d.is_default
}

/// The devices a voice can be played on: the outputs, in order.
pub fn get_tts_output_devices(devices: &Vec<AudioDevice>) -> (r: AppResult<Vec<TtsOutputDevice>>)
    ensures
        r matches Ok(v) && v@.len() == outputs_of(devices@).len() && forall|i: int|
            0 <= i < v@.len() ==> presents(#[trigger] v@[i], outputs_of(devices@)[i]),
{
    let mut v: Vec<TtsOutputDevice> = Vec::new();
    let mut i: usize = 0;
    assert(devices@.subrange(0, 0) =~= Seq::<AudioDevice>::empty());
    while i < devices.len()
        invariant
            i <= devices@.len(),
            v@.len() == outputs_of(devices@.subrange(0, i as int)).len(),
            forall|k: int|
                0 <= k < v@.len() ==> presents(#[trigger] v@[k], outputs_of(devices@.subrange(0, i as int))[k]),
        decreases devices.len() - i,
    {
        assert(devices@.subrange(0, i + 1).drop_last() =~= devices@.subrange(0, i as int));
        let d = &devices[i];
        if !d.is_input {
            v.push(TtsOutputDevice { id: d.id.clone(), name: d.name.clone(), is_default: d.is_default });
        }
        i = i + 1;
    }
    assert(devices@.subrange(0, devices@.len() as int) =~= devices@);
    Ok(v)
}

/// The kind of virtual driver a device name reveals (compared
/// ASCII-lowercased), if any.
pub open spec fn driver_type_of(name: Seq<char>) -> Option<Seq<char>> {
    let l = lower(name);
    if contains(l, "vb-audio"@) || contains(l, "cable"@) {
        Some("vb-audio"@)
    } else if contains(l, "voicemeeter"@) {
        Some("voicemeeter"@)
    } else if contains(l, "virtual audio"@) || contains(l, "virtual"@) {
        Some("virtual"@)
    } else {
        None
    }
}

/// The virtual drivers among the outputs, in order.
pub open spec fn drivers_of(outputs: Seq<TtsOutputDevice>) -> Seq<(Seq<char>, Seq<char>, Seq<char>)>
    decreases outputs.len(),
{
    if outputs.len() == 0 {
        Seq::empty()
    } else {
        let rest = drivers_of(outputs.drop_last());
        let o = outputs.last();
        match driver_type_of(o.name@) {
            Some(t) => rest.push((o.name@, o.id@, t)),
            None => rest,
        }
    }
}

/// A driver as mathematical values: name, device id, driver type.
pub open spec fn driver_view(d: VirtualAudioDriver) -> (Seq<char>, Seq<char>, Seq<char>) {
    (d.name@, d.device_id@, d.driver_type@)
}

/// The names of the drivers.
pub open spec fn driver_names(ds: Seq<(Seq<char>, Seq<char>, Seq<char>)>) -> Seq<Seq<char>> {
    ds.map_values(|d: (Seq<char>, Seq<char>, Seq<char>)| d.0)
}

fn driver_type(name: &str) -> (r: Option<&'static str>)
    ensures
        match r {
            Some(t) => driver_type_of(name@) == Some(t@),
            None => driver_type_of(name@) is None,
        },
{
    let v = chars_of(name);
    let l = lower_chars(&v);
    if contains_str(&l, "vb-audio") || contains_str(&l, "cable") {
        Some("vb-audio")
    } else if contains_str(&l, "voicemeeter") {
        Some("voicemeeter")
    } else if contains_str(&l, "virtual audio") || contains_str(&l, "virtual") {
        Some("virtual")
    } else {
        None
    }
}

/// Looks among the output devices for virtual audio drivers (VB-Audio cables,
/// Voicemeeter, other virtual devices) and recommends installing a virtual
/// cable when there is none.
pub fn check_virtual_audio_driver(outputs: &Vec<TtsOutputDevice>) -> (r: AppResult<VirtualDriverCheckResult>)
    ensures
        r matches Ok(c) && {
            let ds = drivers_of(outputs@);
            &&& c.detected_drivers@.map_values(|d: VirtualAudioDriver| driver_view(d)) == ds
            &&& c.has_virtual_driver == (ds.len() > 0)
            &&& if ds.len() > 0 {
                &&& c.recommendation@ == "已检测到虚拟音频设备: "@ + join(driver_names(ds), ", "@)
                &&& c.download_url is None
            } else {
                &&& c.recommendation@ == "未检测到虚拟音频设备，建议安装 VB-Audio Virtual Cable。"@
                &&& c.download_url matches Some(u) && u@ == "https://vb-audio.com/Cable/"@
            }
        },
{
    let mut detected: Vec<VirtualAudioDriver> = Vec::new();
    let mut names: Vec<String> = Vec::new();
    let mut i: usize = 0;
    assert(outputs@.subrange(0, 0) =~= Seq::<TtsOutputDevice>::empty());
    assert(detected@.map_values(|d: VirtualAudioDriver| driver_view(d)) =~= Seq::empty());
    assert(views(names@) =~= Seq::empty());
    while i < outputs.len()
        invariant
            i <= outputs@.len(),
            detected@.map_values(|d: VirtualAudioDriver| driver_view(d)) == drivers_of(outputs@.subrange(0, i as int)),
            views(names@) == driver_names(drivers_of(outputs@.subrange(0, i as int))),
        decreases outputs.len() - i,
    {
        assert(outputs@.subrange(0, i + 1).drop_last() =~= outputs@.subrange(0, i as int));
        let d = &outputs[i];
        let ghost before = drivers_of(outputs@.subrange(0, i as int));
        let ghost dv0 = detected@;
        let ghost nv0 = names@;
        match driver_type(d.name.as_str()) {
            Some(t) => {
                detected.push(
                    VirtualAudioDriver { name: d.name.clone(), device_id: d.id.clone(), driver_type: owned(t) },
                );
                names.push(d.name.clone());
                assert(detected@.map_values(|d: VirtualAudioDriver| driver_view(d)) =~= dv0.map_values(
                    |d: VirtualAudioDriver| driver_view(d),
                ).push((outputs@[i as int].name@, outputs@[i as int].id@, t@)));
                assert(views(names@) =~= views(nv0).push(outputs@[i as int].name@));
                assert(driver_names(before.push((outputs@[i as int].name@, outputs@[i as int].id@, t@)))
                    =~= driver_names(before).push(outputs@[i as int].name@));
            },
            None => {},
        }
        i = i + 1;
    }
    assert(outputs@.subrange(0, outputs@.len() as int) =~= outputs@);
    let has_virtual_driver = detected.len() > 0;
    proof {
        assert(detected@.len() == detected@.map_values(|d: VirtualAudioDriver| driver_view(d)).len());
    }
    if has_virtual_driver {
        let mut recommendation = owned("已检测到虚拟音频设备: ");
        let list = join_strings(&names, ", ");
        push_str(&mut recommendation, list.as_str());
        Ok(
            VirtualDriverCheckResult {
                has_virtual_driver,
                detected_drivers: detected,
                recommendation,
                download_url: None,
            },
        )
    } else {
        Ok(
            VirtualDriverCheckResult {
                has_virtual_driver,
                detected_drivers: detected,
                recommendation: owned("未检测到虚拟音频设备，建议安装 VB-Audio Virtual Cable。"),
                download_url: Some(owned("https://vb-audio.com/Cable/")),
            },
        )
    }
}

/// An input device as its host enumerates it: the host's name (as `{:?}`
/// prints the host id), the device's position among that host's input
/// devices, and its name when the host could read one.
pub struct InputDeviceEntry {
    pub host: String,
    pub index: usize,
    pub name: Option<String>,
}

/// The value of a decimal numeral.
pub open spec fn numeral_value(s: Seq<char>) -> int
    decreases s.len(),
{
    if s.len() == 0 {
        0
    } else {
        numeral_value(s.drop_last()) * 10 + (s.last() as int - 48)
    }
}

/// Every character is an ASCII digit.
pub open spec fn all_digits(s: Seq<char>) -> bool {
    forall|i: int| 0 <= i < s.len() ==> '0' <= #[trigger] s[i] && s[i] <= '9'
}

/// What `str::parse::<usize>` gives: a non-empty run of digits, after an
/// optional `+`, whose value fits.
pub open spec fn parse_usize(s: Seq<char>) -> Option<usize> {
    let d = if s.len() > 0 && s[0] == '+' {
        s.drop_first()
    } else {
        s
    };
    if d.len() > 0 && all_digits(d) && numeral_value(d) <= usize::MAX {
        Some(numeral_value(d) as usize)
    } else {
        None
    }
}

proof fn lemma_numeral_grows(s: Seq<char>, k: int)
    requires
        0 <= k <= s.len(),
        all_digits(s),
    ensures
        numeral_value(s.subrange(0, k)) <= numeral_value(s),
        numeral_value(s) >= 0,
    decreases s.len(),
{
    if s.len() > 0 {
        assert(all_digits(s.drop_last()));
        if k == s.len() {
            assert(s.subrange(0, k) =~= s);
            lemma_numeral_grows(s.drop_last(), k - 1);
        } else {
            lemma_numeral_grows(s.drop_last(), k);
            assert(s.drop_last().subrange(0, k) =~= s.subrange(0, k));
        }
    } else {
        assert(s.subrange(0, k) =~= s);
    }
}

/// Parses a decimal `usize`.
pub fn parse_decimal_usize(s: &Vec<char>) -> (r: Option<usize>)
    ensures
        r == parse_usize(s@),
{
    let start: usize = if s.len() > 0 && s[0] == '+' {
        1
    } else {
        0
    };
    let ghost d = if s@.len() > 0 && s@[0] == '+' {
        s@.drop_first()
    } else {
        s@
    };
    assert(d =~= s@.subrange(start as int, s@.len() as int));
    if start >= s.len() {
        return None;
    }
    let mut acc: u128 = 0;
    let mut i: usize = start;
    assert(d.subrange(0, 0) =~= Seq::<char>::empty());
    while i < s.len()
        invariant
            start <= i <= s@.len(),
            d == s@.subrange(start as int, s@.len() as int),
            d == (if s@.len() > 0 && s@[0] == '+' {
                s@.drop_first()
            } else {
                s@
            }),
            all_digits(d.subrange(0, i - start)),
            acc == numeral_value(d.subrange(0, i - start)),
            acc <= usize::MAX,
        decreases s.len() - i,
    {
        let c = s[i];
        if c < '0' || c > '9' {
            assert(!all_digits(d)) by {
                assert(d[i - start] == c);
            }
            assert(parse_usize(s@) is None);
            return None;
        }
        assert(d.subrange(0, i + 1 - start).drop_last() =~= d.subrange(0, i - start));
        assert(d.subrange(0, i + 1 - start).last() == c);
        let digit = (c as u32 - 48) as u128;
        acc = acc * 10 + digit;
        if acc > usize::MAX as u128 {
            proof {
                assert(all_digits(d.subrange(0, i + 1 - start)));
                if all_digits(d) {
                    lemma_numeral_grows(d, i + 1 - start);
                }
            }
            assert(parse_usize(s@) is None);
            return None;
        }
        i = i + 1;
    }
    assert(d.subrange(0, d.len() as int) =~= d);
    Some(acc as usize)
}

/// The text before the first `::` of `s`, and the text after it when there is
/// one.
pub open spec fn split_sep(s: Seq<char>) -> (Seq<char>, Option<Seq<char>>) {
    match crate::loci_text::find_from(s, "::"@, 0) {
        Some(i) => (s.subrange(0, i), Some(s.subrange(i + 2, s.len() as int))),
        None => (s, None),
    }
}

/// The host and position a device id of the form
/// `host::<host>::input::<position>::...` names.
pub open spec fn host_request(req: Seq<char>) -> Option<(Seq<char>, usize)> {
    if !crate::text::has_prefix(req, "host::"@) {
        None
    } else {
        let (host, r1) = split_sep(req.subrange(6, req.len() as int));
        match r1 {
            None => None,
            Some(t1) => {
                let (io, r2) = split_sep(t1);
                if io != "input"@ {
                    None
                } else {
                    match r2 {
                        None => None,
                        Some(t2) => match parse_usize(split_sep(t2).0) {
                            Some(n) => Some((host, n)),
                            None => None,
                        },
                    }
                }
            },
        }
    }
}

/// The id a device is listed under.
pub open spec fn device_id(host: Seq<char>, index: usize, name: Seq<char>) -> Seq<char> {
    "host::"@ + host + "::input::"@ + crate::text::decimal(index as nat) + "::"@ + name
}

/// The id a device had before hosts were named.
pub open spec fn legacy_device_id(index: usize, name: Seq<char>) -> Seq<char> {
    "input::"@ + crate::text::decimal(index as nat) + "::"@ + name
}

/// The scan of the devices for a request: the first device listed under
/// exactly that id, and the last one before it whose legacy id or name is the
/// request.
pub open spec fn device_scan(devs: Seq<InputDeviceEntry>, req: Seq<char>) -> (Option<int>, Option<int>)
    decreases devs.len(),
{
    if devs.len() == 0 {
        (None, None)
    } else {
        let (e, l) = device_scan(devs.drop_last(), req);
        let k = devs.len() - 1;
        let d = devs.last();
        if e is Some {
            (e, l)
        } else {
            match d.name {
                None => (e, l),
                Some(n) => if req == device_id(d.host@, d.index, n@) {
                    (Some(k), l)
                } else if req == legacy_device_id(d.index, n@) || req == n@ {
                    (None, Some(k))
                } else {
                    (e, l)
                },
            }
        }
    }
}

/// The first device of `host` at `index`.
pub open spec fn device_at(devs: Seq<InputDeviceEntry>, host: Seq<char>, index: usize) -> Option<int>
    decreases devs.len(),
{
    if devs.len() == 0 {
        None
    } else {
        match device_at(devs.drop_last(), host, index) {
            Some(k) => Some(k),
            None => if devs.last().host@ == host && devs.last().index == index {
                Some(devs.len() - 1)
            } else {
                None
            },
        }
    }
}

/// The device a requested id selects, as its position in `devs`: the device of
/// a named host at a position, when the id names a host that is available and
/// has one there; else the device listed under exactly that id; else the last
/// one whose legacy id or name is the request. Otherwise the device is not found.
pub open spec fn selected_device(
    req: Seq<char>,
    hosts: Seq<Seq<char>>,
    devs: Seq<InputDeviceEntry>,
) -> Result<int, Seq<char>> {
    let direct = match host_request(req) {
        Some((h, n)) => if hosts.contains(h) {
            device_at(devs, h, n)
        } else {
            None
        },
        None => None,
    };
    match direct {
        Some(k) => Ok(k),
        None => {
            let (e, l) = device_scan(devs, req);
            match e {
                Some(k) => Ok(k),
                None => match l {
                    Some(k) => Ok(k),
                    None => Err("Device not found: "@ + req),
                },
            }
        },
    }
}

fn split_sep_chars(s: &Vec<char>) -> (r: (Vec<char>, Option<Vec<char>>))
    ensures
        r.0@ == split_sep(s@).0,
        match r.1 {
            Some(t) => split_sep(s@).1 == Some(t@),
            None => split_sep(s@).1 is None,
        },
{
    let sep = chars_of("::");
    match crate::loci_text::find_first_occurrence(s, &sep) {
        Some(i) => {
            proof {
                crate::loci_text::lemma_find_from_found(s@, sep@, 0);
                reveal_strlit("::");
            }
            (crate::text::sub_chars(s, 0, i), Some(crate::text::sub_chars(s, i + 2, s.len())))
        },
        None => (crate::text::sub_chars(s, 0, s.len()), None),
    }
}

fn parse_host_request(req: &Vec<char>) -> (r: Option<(Vec<char>, usize)>)
    ensures
        match r {
            Some((h, n)) => host_request(req@) == Some((h@, n)),
            None => host_request(req@) is None,
        },
{
    if !crate::text::starts_with_str(req, "host::") {
        return None;
    }
    proof {
        reveal_strlit("host::");
    }
    let rest = crate::text::sub_chars(req, 6, req.len());
    let (host, r1) = split_sep_chars(&rest);
    let t1 = match r1 {
        Some(t) => t,
        None => {
            return None;
        },
    };
    let (io, r2) = split_sep_chars(&t1);
    if !crate::text::chars_eq_str(&io, "input") {
        return None;
    }
    let t2 = match r2 {
        Some(t) => t,
        None => {
            return None;
        },
    };
    let (idx, _) = split_sep_chars(&t2);
    match parse_decimal_usize(&idx) {
        Some(n) => Some((host, n)),
        None => None,
    }
}

fn id_text(host: &str, index: usize, name: &str) -> (r: (String, String))
    ensures
        r.0@ == device_id(host@, index, name@),
        r.1@ == legacy_device_id(index, name@),
{
    let n = crate::text::usize_to_decimal(index);
    let mut full = owned("host::");
    push_str(&mut full, host);
    push_str(&mut full, "::input::");
    push_str(&mut full, n.as_str());
    push_str(&mut full, "::");
    push_str(&mut full, name);
    let mut legacy = owned("input::");
    push_str(&mut legacy, n.as_str());
    push_str(&mut legacy, "::");
    push_str(&mut legacy, name);
    (full, legacy)
}

/// Selects the input device a requested id names, among the devices of the
/// available hosts (listed host by host, each host's devices in order); the
/// result is the position of the device in `devices`.
pub fn select_input_device(requested: &str, hosts: &Vec<String>, devices: &Vec<InputDeviceEntry>) -> (r:
    Result<usize, String>)
    ensures
        match selected_device(requested@, views(hosts@), devices@) {
            Ok(k) => r == Ok::<usize, String>(k as usize),
            Err(m) => r matches Err(e) && e@ == m,
        },
{
    let req = chars_of(requested);
    let mut direct: Option<usize> = None;
    match parse_host_request(&req) {
        Some((h, n)) => {
            let mut known = false;
            let mut j: usize = 0;
            while j < hosts.len()
                invariant
                    j <= hosts@.len(),
                    known == exists|x: int| 0 <= x < j && (#[trigger] hosts@[x])@ == h@,
                decreases hosts.len() - j,
            {
                if crate::text::chars_eq_str(&h, hosts[j].as_str()) {
                    known = true;
                }
                j = j + 1;
            }
            proof {
                if known {
                    let x = choose|x: int| 0 <= x < hosts@.len() && (#[trigger] hosts@[x])@ == h@;
                    assert(views(hosts@)[x] == h@);
                } else {
                    assert forall|x: int| 0 <= x < views(hosts@).len() implies views(hosts@)[x] != h@ by {
                        assert(views(hosts@)[x] == hosts@[x]@);
                    }
                }
            }
            if known {
                let mut k: usize = 0;
                assert(devices@.subrange(0, 0) =~= Seq::<InputDeviceEntry>::empty());
                while k < devices.len() && direct.is_none()
                    invariant
                        k <= devices@.len(),
                        match direct {
                            Some(x) => device_at(devices@, h@, n) == Some(x as int),
                            None => device_at(devices@.subrange(0, k as int), h@, n) is None,
                        },
                    decreases devices.len() - k,
                {
                    assert(devices@.subrange(0, k + 1).drop_last() =~= devices@.subrange(0, k as int));
                    if devices[k].index == n && crate::text::chars_eq_str(&h, devices[k].host.as_str()) {
                        direct = Some(k);
                        proof {
                            lemma_device_at_prefix(devices@, h@, n, k as int + 1);
                        }
                    }
                    k = k + 1;
                }
                proof {
                    if direct is None {
                        assert(devices@.subrange(0, devices@.len() as int) =~= devices@);
                    }
                }
            }
        },
        None => {},
    }
    if let Some(k) = direct {
        return Ok(k);
    }
    let mut exact: Option<usize> = None;
    let mut legacy: Option<usize> = None;
    let mut i: usize = 0;
    assert(devices@.subrange(0, 0) =~= Seq::<InputDeviceEntry>::empty());
    while i < devices.len() && exact.is_none()
        invariant
            i <= devices@.len(),
            exact is None ==> device_scan(devices@.subrange(0, i as int), requested@) == (
                None::<int>,
                match legacy {
                    Some(x) => Some(x as int),
                    None => None,
                },
            ),
            exact matches Some(x) ==> device_scan(devices@, requested@).0 == Some(x as int),
            req@ == requested@,
        decreases devices.len() - i,
    {
        assert(devices@.subrange(0, i + 1).drop_last() =~= devices@.subrange(0, i as int));
        match &devices[i].name {
            Some(name) => {
                let (full, old_id) = id_text(devices[i].host.as_str(), devices[i].index, name.as_str());
                if crate::text::chars_eq_str(&req, full.as_str()) {
                    exact = Some(i);
                    proof {
                        lemma_scan_exact_stays(devices@, requested@, i as int + 1);
                    }
                } else if crate::text::chars_eq_str(&req, old_id.as_str())
                    || crate::text::chars_eq_str(&req, name.as_str()) {
                    legacy = Some(i);
                }
            },
            None => {},
        }
        i = i + 1;
    }
    proof {
        if exact is None {
            assert(devices@.subrange(0, devices@.len() as int) =~= devices@);
        }
    }
    match exact {
        Some(k) => Ok(k),
        None => match legacy {
            Some(k) => Ok(k),
            None => {
                let mut m = owned("Device not found: ");
                push_str(&mut m, requested);
                Err(m)
            },
        },
    }
}

proof fn lemma_device_at_prefix(devs: Seq<InputDeviceEntry>, host: Seq<char>, index: usize, k: int)
    requires
        0 <= k <= devs.len(),
        device_at(devs.subrange(0, k), host, index) is Some,
    ensures
        device_at(devs, host, index) == device_at(devs.subrange(0, k), host, index),
    decreases devs.len() - k,
{
    if k < devs.len() {
        assert(devs.subrange(0, k + 1).drop_last() =~= devs.subrange(0, k));
        lemma_device_at_prefix(devs, host, index, k + 1);
    } else {
        assert(devs.subrange(0, k) =~= devs);
    }
}

proof fn lemma_scan_exact_stays(devs: Seq<InputDeviceEntry>, req: Seq<char>, k: int)
    requires
        0 <= k <= devs.len(),
        device_scan(devs.subrange(0, k), req).0 is Some,
    ensures
        device_scan(devs, req).0 == device_scan(devs.subrange(0, k), req).0,
    decreases devs.len() - k,
{
    if k < devs.len() {
        assert(devs.subrange(0, k + 1).drop_last() =~= devs.subrange(0, k));
        lemma_scan_exact_stays(devs, req, k + 1);
    } else {
        assert(devs.subrange(0, k) =~= devs);
    }
}

proof fn lemma_find_from_first(s: Seq<char>, m: Seq<char>, i: int, j: int)
    requires
        0 <= i <= j <= s.len(),
        crate::text::occurs_at(s, m, j),
        forall|k: int| i <= k < j ==> !crate::text::occurs_at(s, m, k),
    ensures
        crate::loci_text::find_from(s, m, i) == Some(j),
    decreases j - i,
{
    if i < j {
        lemma_find_from_first(s, m, i + 1, j);
    }
}

/// Splitting `a::b` at its first `::` gives `a` and `b` when `a` holds no
/// `::` and does not end in `:`.
proof fn lemma_split_sep_at(a: Seq<char>, b: Seq<char>)
    requires
        !contains(a + ":"@, "::"@),
    ensures
        split_sep(a + "::"@ + b) == (a, Some(b)),
{
    reveal_strlit("::");
    reveal_strlit(":");
    let s = a + "::"@ + b;
    let ac = a + ":"@;
    assert forall|k: int| 0 <= k < a.len() implies !crate::text::occurs_at(s, "::"@, k) by {
        if crate::text::occurs_at(s, "::"@, k) {
            assert(s.subrange(k, k + 2)[0] == ':');
            assert(s.subrange(k, k + 2)[1] == ':');
            assert(ac[k] == s[k]);
            assert(ac[k + 1] == s[k + 1]);
            assert(ac.subrange(k, k + 2) =~= "::"@);
            assert(crate::text::occurs_at(ac, "::"@, k));
        }
    }
    assert(s.subrange(a.len() as int, a.len() as int + 2) =~= "::"@);
    lemma_find_from_first(s, "::"@, 0, a.len() as int);
    assert(s.subrange(0, a.len() as int) =~= a);
    assert(s.subrange(a.len() as int + 2, s.len() as int) =~= b);
}

/// A text without `:` followed by one `:` holds no `::`.
proof fn lemma_no_colon(a: Seq<char>)
    requires
        forall|k: int| 0 <= k < a.len() ==> a[k] != ':',
    ensures
        !contains(a + ":"@, "::"@),
{
    reveal_strlit("::");
    reveal_strlit(":");
    let ac = a + ":"@;
    assert forall|k: int| !crate::text::occurs_at(ac, "::"@, k) by {
        if crate::text::occurs_at(ac, "::"@, k) {
            assert(ac.subrange(k, k + 2)[0] == ':');
            assert(ac[k] == ':');
            assert(a[k] == ':');
        }
    }
}

/// A decimal numeral is a non-empty run of digits with the value it stands for.
proof fn lemma_decimal_digits(n: nat)
    ensures
        crate::text::decimal(n).len() > 0,
        all_digits(crate::text::decimal(n)),
        numeral_value(crate::text::decimal(n)) == n,
    decreases n,
{
    let d = crate::text::decimal(n);
    let c = crate::text::digit_char(n % 10);
    assert((c as int) == (n % 10) + 48);
    if n >= 10 {
        lemma_decimal_digits(n / 10);
        let p = crate::text::decimal(n / 10);
        assert(d == p.push(c));
        assert(d.drop_last() == p);
        assert(d.last() == c);
        assert(numeral_value(d) == numeral_value(p) * 10 + (c as int - 48));
        assert(n == (n / 10) * 10 + n % 10) by (nonlinear_arith);
        assert(numeral_value(d) == n);
        assert forall|i: int| 0 <= i < d.len() implies '0' <= #[trigger] d[i] && d[i] <= '9' by {
            if i < p.len() {
                assert(d[i] == p[i]);
            }
        }
    } else {
        assert(d == seq![c]);
        assert(d.drop_last() =~= Seq::<char>::empty());
        assert(d.last() == c);
        assert(n % 10 == n);
        assert(numeral_value(Seq::<char>::empty()) == 0);
        assert(numeral_value(d) == n);
    }
}

/// The id a device is listed under names its host and position.
pub proof fn lemma_device_id_request(host: Seq<char>, index: usize, name: Seq<char>)
    requires
        !contains(host + ":"@, "::"@),
    ensures
        host_request(device_id(host, index, name)) == Some((host, index)),
{
    reveal_strlit("host::");
    reveal_strlit("::input::");
    reveal_strlit("::");
    reveal_strlit("input");
    let dec = crate::text::decimal(index as nat);
    let req = device_id(host, index, name);
    lemma_decimal_digits(index as nat);
    let t2 = dec + "::"@ + name;
    let t1 = "input"@ + "::"@ + t2;
    assert(req =~= "host::"@ + (host + "::"@ + t1));
    assert(crate::text::has_prefix(req, "host::"@)) by {
        assert(req.subrange(0, 6) =~= "host::"@);
    }
    assert(req.subrange(6, req.len() as int) =~= host + "::"@ + t1);
    lemma_split_sep_at(host, t1);
    lemma_no_colon("input"@);
    lemma_split_sep_at("input"@, t2);
    assert forall|k: int| 0 <= k < dec.len() implies dec[k] != ':' by {
        assert('0' <= dec[k] && dec[k] <= '9');
    }
    lemma_no_colon(dec);
    lemma_split_sep_at(dec, name);
    assert(parse_usize(dec) == Some(index));
}

/// `device_at` gives the first device listed at a host and position, and
/// finds one whenever one is listed.
proof fn lemma_device_at_first(devs: Seq<InputDeviceEntry>, host: Seq<char>, index: usize)
    ensures
        match device_at(devs, host, index) {
            Some(k) => 0 <= k < devs.len() && devs[k].host@ == host && devs[k].index == index
                && forall|j: int| 0 <= j < k ==> !(devs[j].host@ == host && devs[j].index == index),
            None => forall|j: int| 0 <= j < devs.len() ==> !(devs[j].host@ == host && devs[j].index == index),
        },
    decreases devs.len(),
{
    if devs.len() > 0 {
        let init = devs.drop_last();
        lemma_device_at_first(init, host, index);
        assert forall|j: int| 0 <= j < init.len() implies init[j] == devs[j] by {}
    }
}

/// Asking for the id a device is listed under selects the first device listed
/// at that host and position, when the host is available.
pub proof fn lemma_listed_id_selects(
    host: Seq<char>,
    index: usize,
    name: Seq<char>,
    hosts: Seq<Seq<char>>,
    devs: Seq<InputDeviceEntry>,
)
    requires
        !contains(host + ":"@, "::"@),
        hosts.contains(host),
        exists|k: int| 0 <= k < devs.len() && devs[k].host@ == host && devs[k].index == index,
    ensures
        selected_device(device_id(host, index, name), hosts, devs) matches Ok(k) && 0 <= k
            < devs.len() && devs[k].host@ == host && devs[k].index == index && forall|j: int|
            0 <= j < k ==> !(devs[j].host@ == host && devs[j].index == index),
{
    lemma_device_id_request(host, index, name);
    lemma_device_at_first(devs, host, index);
}

} // verus!
