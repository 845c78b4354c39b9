use clip_engine::buffer::{AudioBuffer, OwnedAudioBuffer};
use clip_engine::resampler::{
    AfterPrepare, AfterSupply, AfterWrite, AudioSupplier, Hz, MidiSupplier, OutputRequest,
    PreBufferFillRequest, PreBufferSourceSkill, PrepareRequest, Preparing, Resampler,
    SupplyAudioRequest, SupplyMidiRequest, SupplyRequestInfo, SupplyResponse, SupplyResponseStatus,
    SupplyStep, TempoFactor, VirtualResampleMode, WithFrameRate,
};

/// A source of `length` mono frames whose samples count up from one.
struct Ramp {
    rate: Option<Hz>,
    length: usize,
    requests: Vec<SupplyAudioRequest>,
    pre_buffer_requests: Vec<PreBufferFillRequest>,
}

impl Ramp {
    fn new(hertz: u64, length: usize) -> Self {
        Ramp {
            rate: Some(Hz { millihertz: hertz * 1000 }),
            length,
            requests: vec![],
            pre_buffer_requests: vec![],
        }
    }
}

impl WithFrameRate for Ramp {
    fn frame_rate(&self) -> Option<Hz> {
        self.rate
    }
}

impl AudioSupplier<f64> for Ramp {
    fn supply_audio<B: AudioBuffer<f64>>(
        &mut self,
        request: &SupplyAudioRequest,
        dest_buffer: &mut B,
    ) -> SupplyResponse {
        self.requests.push(*request);
        let start = request.start_frame.max(0) as usize;
        let available = self.length.saturating_sub(start);
        let count = available.min(dest_buffer.frame_count());
        for (i, sample) in dest_buffer.data_as_mut_slice().iter_mut().take(count).enumerate() {
            *sample = (start + i + 1) as f64;
        }
        SupplyResponse {
            num_frames_consumed: count,
            status: if count < dest_buffer.frame_count() {
                SupplyResponseStatus::ReachedEnd { num_frames_written: count }
            } else {
                SupplyResponseStatus::PleaseContinue
            },
        }
    }

    fn channel_count(&self) -> usize {
        1
    }
}

impl MidiSupplier<Vec<u8>> for Ramp {
    fn supply_midi(&mut self, request: &SupplyMidiRequest, event_list: &mut Vec<u8>)
        -> SupplyResponse {
        event_list.push(request.dest_frame_count as u8);
        SupplyResponse { num_frames_consumed: 3, status: SupplyResponseStatus::PleaseContinue }
    }
}

impl PreBufferSourceSkill for Ramp {
    fn pre_buffer(&mut self, request: PreBufferFillRequest) {
        self.pre_buffer_requests.push(request);
    }
}

fn request(hertz: u64) -> SupplyAudioRequest {
    SupplyAudioRequest {
        start_frame: 10,
        dest_sample_rate: Hz { millihertz: hertz * 1000 },
        info: SupplyRequestInfo {
            audio_block_frame_offset: 5,
            requester: "test",
            note: "",
            is_realtime: true,
        },
    }
}

/// Drives a run with an engine that wants `wanted` source frames per round and writes `written`.
fn drive(mut run: Preparing, supplier: &mut Ramp, wanted: &[usize], written: usize)
    -> (SupplyResponse, usize) {
    let mut rounds = 0;
    loop {
        assert_eq!(run.prepare_request().block_frame_count, 128);
        let want = wanted[rounds % wanted.len()];
        let supplying = match run.prepared(want) {
            AfterPrepare::Finished(response) => return (response, rounds),
            AfterPrepare::Supply(supplying) => supplying,
        };
        let mut block = OwnedAudioBuffer::new(1, supplying.block_frame_count(), 0.0f64);
        let inner_request = supplying.inner_request();
        let inner_response = supplier.supply_audio(&inner_request, &mut block);
        let writing = match supplying.supplied(inner_response.num_frames_consumed) {
            AfterSupply::Finished(response) => return (response, rounds),
            AfterSupply::Write(writing) => writing,
        };
        let output = writing.output_request();
        let now_written = written.min(output.max_frame_count);
        rounds += 1;
        run = match writing.written(now_written) {
            AfterWrite::Finished(response) => return (response, rounds),
            AfterWrite::Prepare(preparing) => preparing,
        };
    }
}

#[test]
fn a_disabled_resampler_passes_the_request_through() {
    let mut direct = Ramp::new(44100, 1000);
    let mut direct_buffer = OwnedAudioBuffer::new(1, 64, 0.0f64);
    let direct_response = direct.supply_audio(&request(48000), &mut direct_buffer);

    let mut resampler = Resampler::new(Ramp::new(44100, 1000));
    let mut buffer = OwnedAudioBuffer::new(1, 64, 0.0f64);
    match resampler.supply_audio(&request(48000), &mut buffer) {
        SupplyStep::Done(response) => assert_eq!(response, direct_response),
        SupplyStep::Resample(_) => panic!("a disabled resampler does not resample"),
    }
    assert_eq!(buffer.data_as_slice(), direct_buffer.data_as_slice());
    assert_eq!(resampler.supplier().requests, vec![request(48000)]);
}

#[test]
fn equal_rates_pass_the_request_through() {
    let mut direct = Ramp::new(48000, 1000);
    let mut direct_buffer = OwnedAudioBuffer::new(1, 64, 0.0f64);
    let direct_response = direct.supply_audio(&request(48000), &mut direct_buffer);

    let mut resampler = Resampler::new(Ramp::new(48000, 1000));
    resampler.set_enabled(true);
    let mut buffer = OwnedAudioBuffer::new(1, 64, 0.0f64);
    match resampler.supply_audio(&request(48000), &mut buffer) {
        SupplyStep::Done(response) => assert_eq!(response, direct_response),
        SupplyStep::Resample(_) => panic!("equal rates need no resampling"),
    }
    assert_eq!(buffer.data_as_slice(), direct_buffer.data_as_slice());
    assert_eq!(buffer.data_as_slice()[0], 11.0);
}

#[test]
fn a_supplier_without_material_passes_the_request_through() {
    let mut supplier = Ramp::new(44100, 0);
    supplier.rate = None;
    let mut resampler = Resampler::new(supplier);
    resampler.set_enabled(true);
    assert_eq!(resampler.frame_rate(), None);
    assert_eq!(resampler.plan(Hz { millihertz: 48_000_000 }), None);
    let mut buffer = OwnedAudioBuffer::new(1, 4, 0.0f64);
    assert!(matches!(resampler.supply_audio(&request(48000), &mut buffer), SupplyStep::Done(_)));
}

#[test]
fn different_rates_start_a_run() {
    let mut resampler = Resampler::new(Ramp::new(44100, 100_000));
    resampler.set_enabled(true);
    let mut buffer = OwnedAudioBuffer::new(1, 512, 0.0f64);
    let run = match resampler.supply_audio(&request(48000), &mut buffer) {
        SupplyStep::Resample(run) => run,
        SupplyStep::Done(_) => panic!("different rates need resampling"),
    };
    // Nothing has been asked of the supplier yet.
    assert!(resampler.supplier().requests.is_empty());
    let progress = run.counters();
    assert_eq!(progress.source_frame_rate, Hz { millihertz: 44_100_000 });
    assert_eq!(progress.dest_frame_rate, Hz { millihertz: 48_000_000 });
    assert_eq!(progress.dest_frame_count, 512);
    assert_eq!(progress.source_channel_count, 1);
    assert_eq!(progress.total_num_frames_consumed, 0);
    assert_eq!(progress.total_num_frames_written, 0);
    assert_eq!(run.prepare_request(), PrepareRequest { block_frame_count: 128, channel_count: 1 });
}

#[test]
fn resampling_44100_to_48000_consumes_about_470_frames_for_512() {
    let mut resampler = Resampler::new(Ramp::new(44100, 100_000));
    resampler.set_enabled(true);
    let mut buffer = OwnedAudioBuffer::new(1, 512, 0.0f64);
    let run = match resampler.supply_audio(&request(48000), &mut buffer) {
        SupplyStep::Resample(run) => run,
        SupplyStep::Done(_) => panic!("different rates need resampling"),
    };
    // For 128 frames at 48 kHz the engine wants 117 or 118 frames at 44.1 kHz.
    let (response, rounds) = drive(run, resampler.supplier_mut(), &[118, 117], 128);
    assert_eq!(rounds, 4);
    assert_eq!(
        response,
        SupplyResponse { num_frames_consumed: 470, status: SupplyResponseStatus::PleaseContinue }
    );
    // The supplier below was asked at its own rate, each time from where the last round ended.
    let requests = &resampler.supplier().requests;
    assert_eq!(requests.len(), 4);
    assert_eq!(requests[0].start_frame, 10);
    assert_eq!(requests[1].start_frame, 128);
    assert_eq!(requests[2].start_frame, 245);
    assert_eq!(requests[3].start_frame, 363);
    assert_eq!(requests[0].info.audio_block_frame_offset, 5);
    assert_eq!(requests[1].info.audio_block_frame_offset, 133);
    for request in requests {
        assert_eq!(request.dest_sample_rate, Hz { millihertz: 44_100_000 });
        assert_eq!(request.info.requester, "active-resampler");
        assert_eq!(request.info.note, "");
        assert!(!request.info.is_realtime);
    }
}

#[test]
fn a_short_source_reaches_its_end() {
    let mut resampler = Resampler::new(Ramp::new(44100, 210));
    resampler.set_enabled(true);
    let mut buffer = OwnedAudioBuffer::new(1, 512, 0.0f64);
    let mut audio_request = request(48000);
    audio_request.start_frame = 0;
    let run = match resampler.supply_audio(&audio_request, &mut buffer) {
        SupplyStep::Resample(run) => run,
        SupplyStep::Done(_) => panic!("different rates need resampling"),
    };
    let (response, rounds) = drive(run, resampler.supplier_mut(), &[118], 128);
    // 118 and 92 frames are consumed; the third round finds nothing left.
    assert_eq!(rounds, 2);
    assert_eq!(
        response,
        SupplyResponse {
            num_frames_consumed: 210,
            status: SupplyResponseStatus::ReachedEnd { num_frames_written: 256 }
        }
    );
}

#[test]
fn an_engine_that_wants_nothing_ends_the_run() {
    let mut resampler = Resampler::new(Ramp::new(44100, 1000));
    resampler.set_enabled(true);
    let mut buffer = OwnedAudioBuffer::new(1, 512, 0.0f64);
    let run = match resampler.supply_audio(&request(48000), &mut buffer) {
        SupplyStep::Resample(run) => run,
        SupplyStep::Done(_) => panic!("different rates need resampling"),
    };
    match run.prepared(0) {
        AfterPrepare::Finished(response) => assert_eq!(
            response,
            SupplyResponse {
                num_frames_consumed: 0,
                status: SupplyResponseStatus::ReachedEnd { num_frames_written: 0 }
            }
        ),
        AfterPrepare::Supply(_) => panic!("nothing was wanted"),
    }
    assert!(resampler.supplier().requests.is_empty());
}

#[test]
fn an_engine_that_wants_nothing_later_ends_the_run_with_what_was_written() {
    let mut resampler = Resampler::new(Ramp::new(44100, 100_000));
    resampler.set_enabled(true);
    let mut buffer = OwnedAudioBuffer::new(1, 512, 0.0f64);
    let run = match resampler.supply_audio(&request(48000), &mut buffer) {
        SupplyStep::Resample(run) => run,
        SupplyStep::Done(_) => panic!("different rates need resampling"),
    };
    // Two rounds of 118 and 117 source frames for 128 frames each, then nothing is wanted.
    let (response, rounds) = drive(run, resampler.supplier_mut(), &[118, 117, 0], 128);
    assert_eq!(rounds, 2);
    assert_eq!(
        response,
        SupplyResponse {
            num_frames_consumed: 235,
            status: SupplyResponseStatus::ReachedEnd { num_frames_written: 256 }
        }
    );
    // The supplier below was asked twice, never for an empty block.
    assert_eq!(resampler.supplier().requests.len(), 2);
}

#[test]
fn written_frames_never_exceed_the_destination() {
    let mut resampler = Resampler::new(Ramp::new(44100, 100_000));
    resampler.set_enabled(true);
    let mut buffer = OwnedAudioBuffer::new(1, 100, 0.0f64);
    let run = match resampler.supply_audio(&request(48000), &mut buffer) {
        SupplyStep::Resample(run) => run,
        SupplyStep::Done(_) => panic!("different rates need resampling"),
    };
    let supplying = match run.prepared(50) {
        AfterPrepare::Supply(supplying) => supplying,
        AfterPrepare::Finished(_) => panic!("frames were wanted"),
    };
    let writing = match supplying.supplied(50) {
        AfterSupply::Write(writing) => writing,
        AfterSupply::Finished(_) => panic!("frames were consumed"),
    };
    assert_eq!(
        writing.output_request(),
        OutputRequest { dest_frame_offset: 0, source_frame_count: 50, max_frame_count: 100,
            channel_count: 1 }
    );
    let run = match writing.written(60) {
        AfterWrite::Prepare(run) => run,
        AfterWrite::Finished(_) => panic!("the destination is not full"),
    };
    assert_eq!(run.counters().total_num_frames_written, 60);
    let supplying = match run.prepared(50) {
        AfterPrepare::Supply(supplying) => supplying,
        AfterPrepare::Finished(_) => panic!("frames were wanted"),
    };
    let writing = match supplying.supplied(usize::MAX) {
        AfterSupply::Write(writing) => writing,
        AfterSupply::Finished(_) => panic!("frames were consumed"),
    };
    assert_eq!(writing.counters().total_num_frames_consumed, usize::MAX);
    assert_eq!(writing.output_request().dest_frame_offset, 60);
    assert_eq!(writing.output_request().max_frame_count, 40);
    // An engine that claims more than it was given room for is not believed.
    match writing.written(usize::MAX) {
        AfterWrite::Finished(response) => assert_eq!(
            response,
            SupplyResponse {
                num_frames_consumed: usize::MAX,
                status: SupplyResponseStatus::PleaseContinue
            }
        ),
        AfterWrite::Prepare(_) => panic!("the destination is full"),
    }
}

#[test]
fn the_tempo_factor_divides_the_destination_rate() {
    let mut resampler = Resampler::new(Ramp::new(48000, 1000));
    let rate = Hz { millihertz: 48_000_000 };
    resampler.set_tempo_factor(TempoFactor { millionths: 2_000_000 });
    // Without responsibility for time stretching the factor has no effect.
    assert_eq!(resampler.dest_frame_rate(rate), rate);
    resampler.set_responsible_for_audio_time_stretching(true);
    assert_eq!(resampler.dest_frame_rate(rate), Hz { millihertz: 24_000_000 });
    resampler.set_tempo_factor(TempoFactor { millionths: 3_000_000 });
    assert_eq!(resampler.dest_frame_rate(rate), Hz { millihertz: 16_000_000 });
    resampler.set_tempo_factor(TempoFactor { millionths: 0 });
    assert_eq!(resampler.dest_frame_rate(rate), Hz { millihertz: u64::MAX });
    resampler.set_tempo_factor(TempoFactor { millionths: 1 });
    assert_eq!(
        resampler.dest_frame_rate(Hz { millihertz: u64::MAX }),
        Hz { millihertz: u64::MAX }
    );
    // Variable speed is a conversion like any other.
    resampler.set_enabled(true);
    resampler.set_tempo_factor(TempoFactor { millionths: 2_000_000 });
    assert_eq!(
        resampler.plan(rate),
        Some((Hz { millihertz: 48_000_000 }, Hz { millihertz: 24_000_000 }))
    );
    assert_eq!(resampler.plan(Hz { millihertz: 96_000_000 }), None);
}

#[test]
fn modes_have_their_raw_numbers() {
    let mut resampler = Resampler::new(Ramp::new(48000, 1000));
    assert_eq!(resampler.set_mode(VirtualResampleMode::ProjectDefault), -1);
    assert_eq!(resampler.set_mode(VirtualResampleMode::ReaperMode { mode: 7 }), 7);
    assert_eq!(resampler.set_mode(VirtualResampleMode::ReaperMode { mode: u32::MAX }), -1);
}

#[test]
fn midi_requests_pass_through() {
    let mut resampler = Resampler::new(Ramp::new(44100, 1000));
    resampler.set_enabled(true);
    let midi_request = SupplyMidiRequest {
        start_frame: 0,
        dest_frame_count: 9,
        dest_sample_rate: Hz { millihertz: 48_000_000 },
        info: SupplyRequestInfo { audio_block_frame_offset: 0, requester: "test", note: "",
            is_realtime: true },
    };
    let mut events = vec![];
    let response = resampler.supply_midi(&midi_request, &mut events);
    assert_eq!(response.num_frames_consumed, 3);
    assert_eq!(events, vec![9]);
    assert_eq!(resampler.channel_count::<f64>(), 1);
}

#[test]
fn pre_buffer_requests_get_the_source_rate() {
    let mut resampler = Resampler::new(Ramp::new(44100, 1000));
    let pre_buffer_request =
        PreBufferFillRequest { start_frame: 7, frame_rate: Hz { millihertz: 48_000_000 } };
    resampler.pre_buffer(pre_buffer_request);
    resampler.set_enabled(true);
    resampler.pre_buffer(pre_buffer_request);
    resampler.supplier_mut().rate = None;
    resampler.pre_buffer(pre_buffer_request);
    assert_eq!(
        resampler.supplier().pre_buffer_requests,
        vec![
            pre_buffer_request,
            PreBufferFillRequest { start_frame: 7, frame_rate: Hz { millihertz: 44_100_000 } },
            pre_buffer_request,
        ]
    );
}
