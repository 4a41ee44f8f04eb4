use vstd::prelude::*;

verus! {

/// The command topic suffix appended to `/{subsystem}/{device}`.
pub open spec fn cmd_suffix() -> Seq<char> {
    seq!['/', 'c', 'm', 'd']
}

/// The stream topic suffix appended to `/{subsystem}/{device}`.
pub open spec fn images_suffix() -> Seq<char> {
    seq!['/', 'i', 'm', 'a', 'g', 'e', 's']
}

/// The topic every command for a device travels on.
pub open spec fn spec_command_topic(subsystem: Seq<char>, device: Seq<char>) -> Seq<char> {
    seq!['/'] + subsystem + seq!['/'] + device + cmd_suffix()
}

/// The topic a camera device publishes its frames on.
pub open spec fn spec_stream_topic(subsystem: Seq<char>, device: Seq<char>) -> Seq<char> {
    seq!['/'] + subsystem + seq!['/'] + device + images_suffix()
}

/// A device name with every underscore replaced by a space; cosmetic only.
pub open spec fn spec_display_name(device: Seq<char>) -> Seq<char> {
    Seq::new(device.len(), |i: int| if device[i] == '_' { ' ' } else { device[i] })
}

/// Identity of one peripheral: the subsystem it belongs to and the device
/// name inside that subsystem. Both are fixed at construction; every topic
/// the device uses is derived from them and from nothing else.
pub struct DeviceIdentity {
    pub subsystem: String,
    pub device: String,
}

impl DeviceIdentity {
    pub fn new(subsystem: String, device: String) -> (r: DeviceIdentity)
        ensures
            r.subsystem@ == subsystem@,
            r.device@ == device@,
    {
        DeviceIdentity { subsystem, device }
    }

    /// Derives the request/response topic `/{subsystem}/{device}/cmd`.
    pub fn command_topic(&self) -> (r: String)
        ensures
            r@ == spec_command_topic(self.subsystem@, self.device@),
    {
        proof {
            reveal_strlit("/");
            reveal_strlit("/cmd");
        }
        let mut topic = String::from_str("/");
        topic.append(self.subsystem.as_str());
        topic.append("/");
        topic.append(self.device.as_str());
        topic.append("/cmd");
        proof {
            assert(topic@ =~= spec_command_topic(self.subsystem@, self.device@));
        }
        topic
    }

    /// Derives the frame topic `/{subsystem}/{device}/images`.
    pub fn stream_topic(&self) -> (r: String)
        ensures
            r@ == spec_stream_topic(self.subsystem@, self.device@),
    {
        proof {
            reveal_strlit("/");
            reveal_strlit("/images");
        }
        let mut topic = String::from_str("/");
        topic.append(self.subsystem.as_str());
        topic.append("/");
        topic.append(self.device.as_str());
        topic.append("/images");
        proof {
            assert(topic@ =~= spec_stream_topic(self.subsystem@, self.device@));
        }
        topic
    }

    /// The human-facing name: the device name with separators turned into
    /// spaces. It never feeds back into routing.
    pub fn display_name(&self) -> (r: String)
        ensures
            r@ == spec_display_name(self.device@),
    {
        let name = self.device.as_str();
        let len = name.unicode_len();
        let mut out = String::new();
        let mut i: usize = 0;
        while i < len
            invariant
                i <= len,
                len == name@.len(),
                name@ == self.device@,
                out@ =~= spec_display_name(self.device@).subrange(0, i as int),
            decreases len - i,
        {
            let c = name.get_char(i);
            if c == '_' {
                out.append(" ");
                proof {
                    reveal_strlit(" ");
                    assert(out@ =~= spec_display_name(self.device@).subrange(0, i as int + 1));
                }
            } else {
                let piece = name.substring_char(i, i + 1);
                out.append(piece);
                proof {
                    assert(piece@ =~= seq![self.device@[i as int]]);
                    assert(out@ =~= spec_display_name(self.device@).subrange(0, i as int + 1));
                }
            }
            i = i + 1;
        }
        proof {
            assert(out@ =~= spec_display_name(self.device@));
        }
        out
    }
}

} // verus!
