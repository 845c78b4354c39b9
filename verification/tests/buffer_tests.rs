use clip_engine::buffer::{copy_to, AudioBuffer, BorrowedAudioBuffer, OwnedAudioBuffer};

fn ramp(channel_count: usize, frame_count: usize) -> OwnedAudioBuffer<f64> {
    let mut buffer = OwnedAudioBuffer::new(channel_count, frame_count, 0.0);
    for (i, sample) in buffer.data_as_mut_slice().iter_mut().enumerate() {
        *sample = i as f64 + 1.0;
    }
    buffer
}

#[test]
fn new_buffer_is_silent_and_has_the_given_topology() {
    let buffer = OwnedAudioBuffer::new(2, 3, 0.0f64);
    assert_eq!(buffer.channel_count(), 2);
    assert_eq!(buffer.frame_count(), 3);
    assert_eq!(buffer.interleaved_length(), 6);
    assert_eq!(buffer.data_as_slice(), &[0.0; 6]);
}

#[test]
fn copy_to_writes_the_requested_frames_only() {
    let src = ramp(2, 4);
    let mut dest = OwnedAudioBuffer::new(2, 5, 0.0f64);
    assert_eq!(copy_to(&src, &mut dest, 1, 2, 2), Ok(()));
    assert_eq!(
        dest.data_as_slice(),
        &[0.0, 0.0, 0.0, 0.0, 3.0, 4.0, 5.0, 6.0, 0.0, 0.0]
    );
}

#[test]
fn copy_to_refuses_different_channel_counts() {
    let src = ramp(2, 4);
    let mut dest = OwnedAudioBuffer::new(1, 4, 0.0f64);
    assert_eq!(copy_to(&src, &mut dest, 0, 0, 1), Err("different channel counts"));
    assert_eq!(dest.data_as_slice(), &[0.0; 4]);
}

#[test]
fn copy_to_refuses_ranges_out_of_bounds() {
    let src = ramp(2, 4);
    let mut dest = OwnedAudioBuffer::new(2, 3, 0.0f64);
    assert_eq!(
        copy_to(&src, &mut dest, 4, 0, 1),
        Err("from_src_frame out of source buffer bounds")
    );
    assert_eq!(
        copy_to(&src, &mut dest, 0, 3, 1),
        Err("to_dest_frame out of destination buffer bounds")
    );
    assert_eq!(
        copy_to(&src, &mut dest, 2, 0, 3),
        Err("end of copied range out of source buffer bounds")
    );
    assert_eq!(
        copy_to(&src, &mut dest, 0, 1, 3),
        Err("end of copied range out of destination buffer bounds")
    );
    assert_eq!(
        copy_to(&src, &mut dest, 1, 1, usize::MAX),
        Err("end of copied range out of source buffer bounds")
    );
    assert_eq!(dest.data_as_slice(), &[0.0; 6]);
}

#[test]
fn offset_by_mut_shows_the_rest_of_the_buffer() {
    let mut buffer = ramp(2, 3);
    {
        let mut view = buffer.offset_by_mut(1).unwrap();
        assert_eq!(view.channel_count(), 2);
        assert_eq!(view.frame_count(), 2);
        assert_eq!(view.data_as_slice(), &[3.0, 4.0, 5.0, 6.0]);
        view.data_as_mut_slice()[0] = 9.0;
    }
    assert_eq!(buffer.data_as_slice(), &[1.0, 2.0, 9.0, 4.0, 5.0, 6.0]);
}

#[test]
fn offset_by_mut_refuses_an_offset_that_leaves_no_frame() {
    let mut buffer = ramp(2, 3);
    assert_eq!(buffer.offset_by_mut(3).err(), Some("resulting audio buffer is empty"));
    assert_eq!(buffer.offset_by_mut(usize::MAX).err(), Some("resulting audio buffer is empty"));
    let mut empty = OwnedAudioBuffer::new(2, 0, 0.0f64);
    assert_eq!(empty.offset_by_mut(0).err(), Some("resulting audio buffer is empty"));
}

#[test]
fn copy_into_a_borrowed_view_reaches_the_owner() {
    let src = ramp(1, 2);
    let mut memory = vec![0.0f64; 4];
    {
        let mut dest = BorrowedAudioBuffer::from_raw(&mut memory, 1, 4).unwrap();
        assert_eq!(copy_to(&src, &mut dest, 0, 2, 2), Ok(()));
    }
    assert_eq!(memory, vec![0.0, 0.0, 1.0, 2.0]);
}

#[test]
fn from_raw_wants_one_sample_per_channel_and_frame() {
    let mut memory = vec![0.0f64; 5];
    assert!(BorrowedAudioBuffer::from_raw(&mut memory, 2, 3).is_none());
    assert!(BorrowedAudioBuffer::from_raw(&mut memory, usize::MAX, 2).is_none());
    assert!(BorrowedAudioBuffer::from_raw(&mut memory, 5, 1).is_some());
}

#[test]
fn try_recycle_reuses_a_large_enough_vector() {
    let mut data = Vec::with_capacity(8);
    data.extend_from_slice(&[1.0f64, 2.0, 3.0]);
    let buffer = OwnedAudioBuffer::try_recycle(data, 2, 3, 0.0).unwrap();
    assert_eq!(buffer.data_as_slice(), &[1.0, 2.0, 3.0, 0.0, 0.0, 0.0]);
    let data = buffer.into_inner();
    assert_eq!(data.len(), 6);
    let smaller = OwnedAudioBuffer::try_recycle(data, 1, 2, 0.0).unwrap();
    assert_eq!(smaller.data_as_slice(), &[1.0, 2.0]);
}

#[test]
fn try_recycle_refuses_a_vector_that_is_too_small() {
    let data: Vec<f64> = Vec::new();
    assert_eq!(
        OwnedAudioBuffer::try_recycle(data, 2, 3, 0.0).err(),
        Some("given vector doesn't have enough capacity")
    );
    let data: Vec<f64> = vec![0.0; 4];
    assert_eq!(
        OwnedAudioBuffer::try_recycle(data, usize::MAX, 2, 0.0).err(),
        Some("given vector doesn't have enough capacity")
    );
    assert_eq!(
        OwnedAudioBuffer::recycle_with_capacity(vec![1.0f64; 4], 4, 5, 1, 0.0).err(),
        Some("given vector doesn't have enough capacity")
    );
}

#[test]
fn copy_from_writes_through_a_view_to_its_owner() {
    let src = ramp(2, 2);
    let mut owner = OwnedAudioBuffer::new(2, 4, 0.0f64);
    {
        let mut view = owner.offset_by_mut(1).unwrap();
        assert_eq!(view.copy_from(&src, 0, 1, 2), Ok(()));
        assert_eq!(view.copy_from(&src, 0, 2, 2),
            Err("end of copied range out of destination buffer bounds"));
        assert_eq!(view.copy_from(&src, 2, 0, 0),
            Err("from_src_frame out of source buffer bounds"));
    }
    assert_eq!(owner.data_as_slice(), &[0.0, 0.0, 0.0, 0.0, 1.0, 2.0, 3.0, 4.0]);
    let mono = ramp(1, 2);
    let mut view = owner.offset_by_mut(0).unwrap();
    assert_eq!(view.copy_from(&mono, 0, 0, 1), Err("different channel counts"));
}
