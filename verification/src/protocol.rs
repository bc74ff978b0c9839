//! Concrete application message types.
//!
//! These are data, not behavior: each one fixes a header pair and a
//! field list, and gets its byte-exact serializer through
//! [`crate::codec::OutPacket`].

use crate::codec::{
    fields_bytes, lemma_fields_bytes_take_step, message_bytes, push_field, FieldValue, OutPacket,
    PacketHeader,
};
use vstd::prelude::*;

verus! {

/// Message class byte of [`MotorSetpoints`].
pub const MOTOR_SETPOINTS_CLASS: u8 = 0x42;

/// Message type byte of [`MotorSetpoints`].
pub const MOTOR_SETPOINTS_TYPE: u8 = 0xA0;

/// The motor-setpoint command: three 32-bit IEEE-754 setpoints, each
/// carried as its bit pattern (obtained with `f32::to_bits` at the
/// boundary where floating-point values live).
#[derive(Clone, Copy, Debug, PartialEq, Eq, Structural)]
pub struct MotorSetpoints {
    /// Bit pattern of the steering position setpoint.
    pub steering_pos: u32,
    /// Bit pattern of the rear-left wheel velocity setpoint.
    pub rear_left_vel: u32,
    /// Bit pattern of the rear-right wheel velocity setpoint.
    pub rear_right_vel: u32,
}

impl OutPacket for MotorSetpoints {
    open spec fn wire_header(&self) -> PacketHeader {
        PacketHeader { msg_class: MOTOR_SETPOINTS_CLASS, msg_type: MOTOR_SETPOINTS_TYPE }
    }

    open spec fn wire_fields(&self) -> Seq<FieldValue> {
        seq![
            FieldValue::F32Bits(self.steering_pos),
            FieldValue::F32Bits(self.rear_left_vel),
            FieldValue::F32Bits(self.rear_right_vel),
        ]
    }

    fn serialize(&self, sink: &mut Vec<u8>) {
        sink.push(MOTOR_SETPOINTS_CLASS);
        sink.push(MOTOR_SETPOINTS_TYPE);
        push_field(sink, &FieldValue::F32Bits(self.steering_pos));
        push_field(sink, &FieldValue::F32Bits(self.rear_left_vel));
        push_field(sink, &FieldValue::F32Bits(self.rear_right_vel));
        proof {
            let fs = self.wire_fields();
            lemma_fields_bytes_take_step(fs, 0);
            lemma_fields_bytes_take_step(fs, 1);
            lemma_fields_bytes_take_step(fs, 2);
            assert(fs.take(0) =~= Seq::<FieldValue>::empty());
            assert(fs.take(3) =~= fs);
            assert(fields_bytes(fs.take(0)) =~= Seq::<u8>::empty());
            assert(sink@ =~= old(sink)@ + message_bytes(self.wire_header(), fs));
        }
    }
}

} // verus!
