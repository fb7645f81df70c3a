use vstd::prelude::*;

verus! {

const HEADER_SIZE_ID: usize = 1;

const HEADER_SIZE_PACKET_SIZE: usize = 4;

/// First byte of a data packet in the sliced format.
pub const HEADER_ID_PACKET: u8 = 0x00;

/// Cuts a packet into writes of at most `max_chunk_size` bytes, the first
/// of which also carries a 5-byte header: the id byte, then the payload
/// length in 4 little-endian bytes.
pub struct PacketSlicer {
    max_chunk_size: usize,
}

impl PacketSlicer {
    pub closed spec fn max_chunk(&self) -> nat {
        self.max_chunk_size as nat
    }

    pub fn new(max_chunk_size: usize) -> (r: PacketSlicer)
        ensures
            r.max_chunk() == max_chunk_size,
    {
        PacketSlicer { max_chunk_size }
    }

    /// Bytes the header takes in the first write.
    pub fn header_size(&self) -> (r: usize)
        ensures
            r == 5,
    {
        HEADER_SIZE_ID + HEADER_SIZE_PACKET_SIZE
    }

    /// The header for a payload of `length` bytes, or `None` when the length
    /// does not fit in four bytes.
    pub fn header(&self, length: usize) -> (r: Option<[u8; 5]>)
        ensures
            r is Some <==> length <= crate::network::framing::max_packet_len(),
            r matches Some(h) ==> h@ == seq![HEADER_ID_PACKET] + crate::network::framing::le_u32_bytes(
                length as nat,
            ),
    {
        match crate::network::framing::packet_header(length) {
            Some(len) => {
                let h = [HEADER_ID_PACKET, len[0], len[1], len[2], len[3]];
                assert(h@ =~= seq![HEADER_ID_PACKET] + len@);
                Some(h)
            },
            None => None,
        }
    }

    /// Where the write that starts at `data_cursor` ends, when `packet_cursor`
    /// bytes of the current chunk are already taken: the end of the data if
    /// the rest fits, otherwise as far as the chunk has room.
    pub fn chunk_end(&self, data_len: usize, data_cursor: usize, packet_cursor: usize) -> (r: usize)
        requires
            data_cursor <= data_len,
        ensures
            self.max_chunk() <= packet_cursor ==> r == data_cursor,
            self.max_chunk() > packet_cursor ==> r == if data_len - data_cursor <= self.max_chunk() - packet_cursor {
                data_len as int
            } else {
                data_cursor + self.max_chunk() - packet_cursor
            },
    {
        if self.max_chunk_size <= packet_cursor {
            return data_cursor;
        }
        let room = self.max_chunk_size - packet_cursor;
        if data_len - data_cursor <= room {
            data_len
        } else {
            data_cursor + room
        }
    }
}

} // verus!
