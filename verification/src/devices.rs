//! Capture-device discovery: parsing of the device listing that the media
//! tool prints for the AVFoundation input.
use vstd::prelude::*;
use crate::text::{
    index_of, lines, parse_unsigned, trim, contains, find, parse_usize, trim_chars, str_chars,
    string_from_chars, split_lines,
};
use crate::text::{decimal, push_str, push_u64};

verus! {

/// A capture device (video or audio).
#[derive(Debug, Clone)]
pub struct Device {
    pub index: usize,
    pub name: String,
}

/// Video and audio devices found in a listing.
#[derive(Debug)]
pub struct DeviceList {
    pub video_devices: Vec<Device>,
    pub audio_devices: Vec<Device>,
}

pub open spec fn entry_marker() -> Seq<char> {
    seq![']', ' ', '[']
}

pub open spec fn video_header() -> Seq<char> {
    "AVFoundation video devices:"@
}

pub open spec fn audio_header() -> Seq<char> {
    "AVFoundation audio devices:"@
}

/// The device entry that a listing line holds, read from the text after
/// `"] ["`: the index up to the next `]` (parsed as `usize`), and the name that
/// follows the character after that `]`, trimmed; `None` when any part is
/// missing (nothing follows the `]`, among others) or the name is empty.
pub open spec fn device_entry(line: Seq<char>) -> Option<(int, Seq<char>)> {
    let i = index_of(line, entry_marker());
    if i < 0 {
        None
    } else {
        let after = line.skip(i + 3);
        let j = index_of(after, seq![']']);
        if j < 0 {
            None
        } else {
            match parse_unsigned(after.take(j), usize::MAX as int) {
                None => None,
                Some(idx) => {
                    let name = trim(after.skip(j + 2));
                    if after.len() < j + 2 || name.len() == 0 {
                        None
                    } else {
                        Some((idx, name))
                    }
                },
            }
        }
    }
}

/// Parse one listing line; the index and name of its device entry, if any.
pub fn parse_entry(line: &[char]) -> (r: Option<(usize, String)>)
    ensures
        match device_entry(line@) {
            None => r is None,
            Some(e) => r matches Some(p) && p.0 as int == e.0 && p.1@ == e.1,
        },
{
    let marker: [char; 3] = [']', ' ', '['];
    assert(marker@ =~= entry_marker());
    let i = match find(line, marker.as_slice()) {
        Some(i) => i,
        None => return None,
    };
    proof {
        crate::text::lemma_index_of_from(line@, entry_marker(), 0);
    }
    let mut after: Vec<char> = Vec::new();
    let n = line.len();
    let mut k = i + 3;
    while k < n
        invariant
            n == line@.len(),
            i + 3 <= k <= n,
            after@ =~= line@.subrange(i + 3, k as int),
        decreases n - k,
    {
        after.push(line[k]);
        k = k + 1;
    }
    assert(after@ =~= line@.skip(i + 3));
    let close: [char; 1] = [']'];
    assert(close@ =~= seq![']']);
    let j = match find(after.as_slice(), close.as_slice()) {
        Some(j) => j,
        None => return None,
    };
    proof {
        crate::text::lemma_index_of_from(after@, seq![']'], 0);
    }
    let mut idx_chars: Vec<char> = Vec::new();
    let mut t: usize = 0;
    while t < j
        invariant
            j < after@.len(),
            t <= j,
            idx_chars@ =~= after@.take(t as int),
        decreases j - t,
    {
        idx_chars.push(after[t]);
        t = t + 1;
    }
    let index = match parse_usize(idx_chars.as_slice()) {
        Some(v) => v,
        None => return None,
    };
    let m = after.len();
    if m < j + 2 {
        return None;
    }
    let mut rest: Vec<char> = Vec::new();
    let mut q = j + 2;
    while q < m
        invariant
            m == after@.len(),
            j + 2 <= q <= m,
            rest@ =~= after@.subrange(j + 2, q as int),
        decreases m - q,
    {
        rest.push(after[q]);
        q = q + 1;
    }
    assert(rest@ =~= after@.skip(j + 2));
    let name = trim_chars(rest.as_slice());
    if name.len() == 0 {
        return None;
    }
    Some((index, string_from_chars(name.as_slice())))
}

/// Parse a single device line from the listing.
pub fn parse_device_line(line: &str) -> (r: Option<Device>)
    ensures
        match device_entry(line@) {
            None => r is None,
            Some(e) => r matches Some(d) && d.index as int == e.0 && d.name@ == e.1,
        },
{
    let chars = str_chars(line);
    match parse_entry(chars.as_slice()) {
        Some((index, name)) => Some(Device { index, name }),
        None => None,
    }
}

/// Which section of the listing a line sits in.
pub open spec fn section_after(line: Seq<char>, in_video: bool, in_audio: bool) -> (bool, bool) {
    if contains(line, video_header()) {
        (true, false)
    } else if contains(line, audio_header()) {
        (false, true)
    } else {
        (in_video, in_audio)
    }
}

/// Entries of the listing lines `ls`, sorted into video and audio sections by
/// the section headers; entries outside both sections are dropped.
pub open spec fn sorted_entries(ls: Seq<Seq<char>>, in_video: bool, in_audio: bool) -> (
    Seq<(int, Seq<char>)>,
    Seq<(int, Seq<char>)>,
)
    decreases ls.len(),
{
    if ls.len() == 0 {
        (Seq::empty(), Seq::empty())
    } else {
        let line = ls[0];
        let rest = ls.drop_first();
        if contains(line, video_header()) || contains(line, audio_header()) {
            let st = section_after(line, in_video, in_audio);
            sorted_entries(rest, st.0, st.1)
        } else {
            let tail = sorted_entries(rest, in_video, in_audio);
            match device_entry(line) {
                Some(e) => if in_video {
                    (seq![e] + tail.0, tail.1)
                } else if in_audio {
                    (tail.0, seq![e] + tail.1)
                } else {
                    tail
                },
                None => tail,
            }
        }
    }
}

pub open spec fn device_view(d: Device) -> (int, Seq<char>) {
    (d.index as int, d.name@)
}

/// Parse the media tool's device listing into video and audio devices.
pub fn parse_device_list(stderr: &str) -> (r: Result<DeviceList, String>)
    ensures
        r matches Ok(list) && list.video_devices@.map_values(|d: Device| device_view(d)) == sorted_entries(
            lines(stderr@),
            false,
            false,
        ).0 && list.audio_devices@.map_values(|d: Device| device_view(d)) == sorted_entries(
            lines(stderr@),
            false,
            false,
        ).1,
{
    let chars = str_chars(stderr);
    let ls = split_lines(chars.as_slice());
    let vh = str_chars("AVFoundation video devices:");
    let ah = str_chars("AVFoundation audio devices:");
    let ghost all = lines(stderr@);
    let mut video: Vec<Device> = Vec::new();
    let mut audio: Vec<Device> = Vec::new();
    let mut in_video = false;
    let mut in_audio = false;
    let n = ls.len();
    let mut k: usize = 0;
    assert(all.skip(0) =~= all);
    while k < n
        invariant
            n == ls@.len(),
            n == all.len(),
            all == lines(stderr@),
            forall|t: int| 0 <= t < n ==> #[trigger] ls@[t]@ == all[t],
            vh@ == video_header(),
            ah@ == audio_header(),
            k <= n,
            sorted_entries(all, false, false).0 == video@.map_values(|d: Device| device_view(d))
                + sorted_entries(all.skip(k as int), in_video, in_audio).0,
            sorted_entries(all, false, false).1 == audio@.map_values(|d: Device| device_view(d))
                + sorted_entries(all.skip(k as int), in_video, in_audio).1,
        decreases n - k,
    {
        let line = &ls[k];
        let ghost rest = all.skip(k as int);
        assert(rest[0] == all[k as int]);
        assert(rest.drop_first() =~= all.skip(k + 1));
        let is_video = find(line.as_slice(), vh.as_slice()).is_some();
        let is_audio = find(line.as_slice(), ah.as_slice()).is_some();
        if is_video {
            in_video = true;
            in_audio = false;
        } else if is_audio {
            in_video = false;
            in_audio = true;
        } else {
            let ghost tail = sorted_entries(all.skip(k + 1), in_video, in_audio);
            match parse_entry(line.as_slice()) {
                Some((index, name)) => {
                    if in_video {
                        let ghost before = video@.map_values(|d: Device| device_view(d));
                        video.push(Device { index, name });
                        assert(video@.map_values(|d: Device| device_view(d)) =~= before + seq![
                            device_entry(all[k as int])->0,
                        ]);
                    } else if in_audio {
                        let ghost before = audio@.map_values(|d: Device| device_view(d));
                        audio.push(Device { index, name });
                        assert(audio@.map_values(|d: Device| device_view(d)) =~= before + seq![
                            device_entry(all[k as int])->0,
                        ]);
                    }
                },
                None => {},
            }
        }
        k = k + 1;
    }
    assert(all.skip(n as int) =~= Seq::<Seq<char>>::empty());
    assert(video@.map_values(|d: Device| device_view(d)) =~= sorted_entries(all, false, false).0);
    assert(audio@.map_values(|d: Device| device_view(d)) =~= sorted_entries(all, false, false).1);
    Ok(DeviceList { video_devices: video, audio_devices: audio })
}

/// The lines that list one kind of devices: `  [index] name` each, or
/// `  (none found)`.
pub open spec fn device_lines(devices: Seq<Device>) -> Seq<char>
    decreases devices.len(),
{
    if devices.len() == 0 {
        Seq::empty()
    } else {
        device_lines(devices.drop_last()) + "  ["@ + decimal(devices.last().index as nat) + "] "@
            + devices.last().name@ + "\n"@
    }
}

pub open spec fn device_section(title: Seq<char>, devices: Seq<Device>) -> Seq<char> {
    title + "\n"@ + if devices.len() == 0 {
        "  (none found)\n"@
    } else {
        device_lines(devices)
    }
}

/// The device report: the video devices, the audio devices, or (when
/// neither is asked for) both, separated by an empty line.
pub open spec fn device_report(list: DeviceList, show_video: bool, show_audio: bool) -> Seq<char> {
    let both = !show_video && !show_audio;
    (if show_video || both {
        device_section("Video Devices:"@, list.video_devices@) + if both {
            "\n"@
        } else {
            Seq::empty()
        }
    } else {
        Seq::empty()
    }) + if show_audio || both {
        device_section("Audio Devices:"@, list.audio_devices@)
    } else {
        Seq::empty()
    }
}

fn push_section(s: &mut String, title: &str, devices: &Vec<Device>)
    ensures
        final(s)@ == old(s)@ + device_section(title@, devices@),
{
    let ghost start = s@;
    push_str(s, title);
    push_str(s, "\n");
    if devices.len() == 0 {
        push_str(s, "  (none found)\n");
    } else {
        let ghost head = s@;
        let n = devices.len();
        let mut i: usize = 0;
        while i < n
            invariant
                n == devices@.len(),
                i <= n,
                s@ == head + device_lines(devices@.take(i as int)),
            decreases n - i,
        {
            assert(devices@.take(i + 1).drop_last() =~= devices@.take(i as int));
            push_str(s, "  [");
            push_u64(s, devices[i].index as u64);
            push_str(s, "] ");
            push_str(s, devices[i].name.as_str());
            push_str(s, "\n");
            i = i + 1;
        }
        assert(devices@.take(n as int) =~= devices@);
    }
    assert(s@ =~= start + device_section(title@, devices@));
}

/// The report of the devices of a listing, as it is printed.
pub fn format_devices(devices: &DeviceList, show_video: bool, show_audio: bool) -> (r: String)
    ensures
        r@ == device_report(*devices, show_video, show_audio),
{
    let both = !show_video && !show_audio;
    let mut s = String::new();
    if show_video || both {
        push_section(&mut s, "Video Devices:", &devices.video_devices);
        if both {
            push_str(&mut s, "\n");
        }
    }
    let ghost mid = s@;
    if show_audio || both {
        push_section(&mut s, "Audio Devices:", &devices.audio_devices);
    }
    assert(s@ =~= device_report(*devices, show_video, show_audio));
    s
}

/// The error of a device listing that could not be produced: the media
/// tool is missing (`tool_missing`), or it failed with `error`.
pub fn listing_failure(tool_missing: bool, error: &str) -> (r: String)
    ensures
        r@ == if tool_missing {
            "FFmpeg not found. Please install it with:\n\n    brew install ffmpeg\n"@
        } else {
            "Failed to run ffmpeg: "@ + error@
        },
{
    if tool_missing {
        String::from_str("FFmpeg not found. Please install it with:\n\n    brew install ffmpeg\n")
    } else {
        let mut s = String::from_str("Failed to run ffmpeg: ");
        push_str(&mut s, error);
        s
    }
}

} // verus!
