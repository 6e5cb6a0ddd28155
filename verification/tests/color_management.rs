use niri_color::color::{
    ImageDescription, Primaries, RenderingIntent, TransferFunction, PQ_MAX_LUMINANCE,
    SDR_REFERENCE_WHITE,
};
use niri_color::color_management::{
    bind_events, creator_request, description_request, feedback_request, information_events,
    make_failed_description, make_ready_description, manager_request, map_intent, map_primaries,
    map_tf, next_identity, output_request, surface_marker_event, surface_request, BuildError, CapabilityEvent, ColorSurfaceEvent,
    ColorSurfaceCachedState, CreatorError, CreatorOutcome, CreatorRequest, DescriptionError,
    DescriptionOutcome, DescriptionRequest, FailureCause, FeedbackError, FeedbackOutcome,
    FeedbackRequest, IdentityCounter, Luminances, ManagerError, ManagerOutcome, ManagerRequest,
    OutputOutcome, OutputRequest, ParamsBuilder, SurfaceColorConfig, SurfaceError,
    SurfaceExistsMarker, SurfaceOutcome, SurfaceRequest, FEATURE_PARAMETRIC,
    FEATURE_SET_LUMINANCES, FEATURE_WINDOWS_SCRGB, PRIMARIES_BT2020, PRIMARIES_SRGB,
    RENDER_INTENT_ABSOLUTE, RENDER_INTENT_PERCEPTUAL, RENDER_INTENT_RELATIVE,
    RENDER_INTENT_SATURATION, TF_EXT_LINEAR, TF_SRGB, TF_ST2084_PQ,
};
use wayland_protocols::wp::color_management::v1::server::wp_color_manager_v1::{
    Feature, Primaries as P, RenderIntent, TransferFunction as Tf,
};
use wp_color_management_surface_feedback_v1::Error as FeedbackErr;
use wp_color_management_surface_v1::Error as SurfaceErr;
use wp_image_description_creator_params_v1::Error as CreatorErr;
use wp_image_description_v1::{Cause, Error as DescErr};
use wayland_protocols::wp::color_management::v1::server::wp_color_manager_v1::Error as ManagerErr;
use wayland_protocols::wp::color_management::v1::server::{
    wp_color_management_surface_feedback_v1, wp_color_management_surface_v1,
    wp_image_description_creator_params_v1, wp_image_description_v1,
};

fn advertised_tfs() -> Vec<u32> {
    bind_events()
        .into_iter()
        .filter_map(|e| match e {
            CapabilityEvent::SupportedTfNamed(t) => Some(t),
            _ => None,
        })
        .collect()
}

fn advertised_primaries() -> Vec<u32> {
    bind_events()
        .into_iter()
        .filter_map(|e| match e {
            CapabilityEvent::SupportedPrimariesNamed(p) => Some(p),
            _ => None,
        })
        .collect()
}

fn advertised_intents() -> Vec<u32> {
    bind_events()
        .into_iter()
        .filter_map(|e| match e {
            CapabilityEvent::SupportedIntent(i) => Some(i),
            _ => None,
        })
        .collect()
}

#[test]
fn capabilities_are_backed_by_the_color_model() {
    // Every advertised named tf/primaries must map into the color model.
    for tf in advertised_tfs() {
        assert!(map_tf(tf).is_some(), "advertised tf {tf:?} has no mapping");
    }
    for p in advertised_primaries() {
        assert!(map_primaries(p).is_some(), "advertised primaries {p:?} unmapped");
    }
    for i in advertised_intents() {
        assert!(map_intent(i).is_some(), "advertised intent {i:?} unmapped");
    }
    // Perceptual is mandatory.
    assert!(advertised_intents().contains(&(RenderIntent::Perceptual as u32)));
}

#[test]
fn identity_is_monotonic_and_never_zero() {
    let mut counter = IdentityCounter::new();
    let a = next_identity(&mut counter);
    let b = next_identity(&mut counter);
    assert_ne!(a, 0);
    assert!(b > a);
}

#[test]
fn build_srgb_description() {
    let b = ParamsBuilder {
        tf: Some(TransferFunction::Srgb),
        primaries: Some(Primaries::bt709()),
        ..Default::default()
    };
    let desc = b.build().unwrap();
    assert_eq!(desc.transfer, TransferFunction::Srgb);
    assert_eq!(desc.primaries, Primaries::bt709());
    // 0.2, 80 and 80 cd/m².
    assert_eq!(desc.min_luminance, 2_000);
    assert_eq!(desc.max_luminance, 800_000);
    assert_eq!(desc.reference_white, 800_000);
}

#[test]
fn build_pq_bt2020_description() {
    let b = ParamsBuilder {
        tf: Some(TransferFunction::St2084Pq),
        primaries: Some(Primaries::bt2020()),
        ..Default::default()
    };
    let desc = b.build().unwrap();
    assert_eq!(desc.transfer, TransferFunction::St2084Pq);
    assert_eq!(desc.primaries, Primaries::bt2020());
    // 0.005, 10000 and 203 cd/m².
    assert_eq!(desc.min_luminance, 50);
    assert_eq!(desc.max_luminance, 100_000_000);
    assert_eq!(desc.reference_white, 2_030_000);
}

#[test]
fn build_requires_tf_and_primaries() {
    let only_tf = ParamsBuilder {
        tf: Some(TransferFunction::Srgb),
        ..Default::default()
    };
    assert_eq!(
        only_tf.build().unwrap_err(),
        BuildError::Protocol(CreatorError::IncompleteSet)
    );
}

#[test]
fn build_rejects_fall_above_cll() {
    let b = ParamsBuilder {
        tf: Some(TransferFunction::St2084Pq),
        primaries: Some(Primaries::bt2020()),
        max_cll: Some(1000),
        max_fall: Some(2000),
        ..Default::default()
    };
    assert_eq!(
        b.build().unwrap_err(),
        BuildError::Protocol(CreatorError::InvalidLuminance)
    );
}

#[test]
fn version_one_rejects_content_light_outside_mastering_range() {
    for b in [
        ParamsBuilder {
            tf: Some(TransferFunction::Srgb),
            primaries: Some(Primaries::bt709()),
            max_cll: Some(0),
            ..Default::default()
        },
        ParamsBuilder {
            tf: Some(TransferFunction::Srgb),
            primaries: Some(Primaries::bt709()),
            max_fall: Some(81),
            ..Default::default()
        },
    ] {
        assert_eq!(
            b.build().unwrap_err(),
            BuildError::Protocol(CreatorError::InvalidLuminance)
        );
    }
}

#[test]
fn pq_luminance_swing_is_fixed_at_10000() {
    let b = ParamsBuilder {
        tf: Some(TransferFunction::St2084Pq),
        primaries: Some(Primaries::bt2020()),
        // 0.01 cd/m², 500 cd/m² (ignored for PQ), 203 cd/m².
        luminances: Some(Luminances {
            min_lum: 100,
            max_lum: 500,
            reference_lum: 203,
        }),
        ..Default::default()
    };
    let desc = b.build().unwrap();
    assert_eq!(desc.max_luminance, 100 + 100_000_000);
    assert_eq!(desc.reference_white, 2_030_000);
}

#[test]
fn windows_scrgb_is_linear() {
    let desc = ImageDescription::windows_scrgb();
    assert_eq!(desc.transfer, TransferFunction::Linear);
    assert_eq!(desc.reference_white, 2_030_000);
}

#[test]
fn wire_values_match_the_protocol_enumerations() {
    assert_eq!(TF_SRGB, Tf::Srgb as u32);
    assert_eq!(TF_ST2084_PQ, Tf::St2084Pq as u32);
    assert_eq!(TF_EXT_LINEAR, Tf::ExtLinear as u32);
    assert_eq!(PRIMARIES_SRGB, P::Srgb as u32);
    assert_eq!(PRIMARIES_BT2020, P::Bt2020 as u32);
    assert_eq!(RENDER_INTENT_PERCEPTUAL, RenderIntent::Perceptual as u32);
    assert_eq!(RENDER_INTENT_RELATIVE, RenderIntent::Relative as u32);
    assert_eq!(RENDER_INTENT_SATURATION, RenderIntent::Saturation as u32);
    assert_eq!(RENDER_INTENT_ABSOLUTE, RenderIntent::Absolute as u32);
    assert_eq!(FEATURE_PARAMETRIC, Feature::Parametric as u32);
    assert_eq!(FEATURE_SET_LUMINANCES, Feature::SetLuminances as u32);
    assert_eq!(FEATURE_WINDOWS_SCRGB, Feature::WindowsScrgb as u32);
    // Error codes, in declaration order of the protocol.
    assert_eq!(
        wp_image_description_creator_params_v1::Error::InvalidLuminance as u32,
        5
    );
    assert_eq!(wp_color_management_surface_v1::Error::Inert as u32, 2);
    assert_eq!(wp_color_management_surface_feedback_v1::Error::Inert as u32, 0);
    assert_eq!(wp_image_description_v1::Error::NoInformation as u32, 1);
    assert_eq!(wp_image_description_v1::Cause::NoOutput as u32, 3);
}

#[test]
fn bind_advertises_in_protocol_order() {
    assert_eq!(
        bind_events(),
        vec![
            CapabilityEvent::SupportedIntent(RENDER_INTENT_PERCEPTUAL),
            CapabilityEvent::SupportedFeature(FEATURE_PARAMETRIC),
            CapabilityEvent::SupportedFeature(FEATURE_SET_LUMINANCES),
            CapabilityEvent::SupportedFeature(FEATURE_WINDOWS_SCRGB),
            CapabilityEvent::SupportedTfNamed(TF_SRGB),
            CapabilityEvent::SupportedTfNamed(TF_ST2084_PQ),
            CapabilityEvent::SupportedTfNamed(TF_EXT_LINEAR),
            CapabilityEvent::SupportedPrimariesNamed(PRIMARIES_SRGB),
            CapabilityEvent::SupportedPrimariesNamed(PRIMARIES_BT2020),
            CapabilityEvent::Done,
        ]
    );
}

#[test]
fn unadvertised_names_do_not_map() {
    // bt1886 (1) and hlg (13) transfer functions, dci_p3 (8) primaries,
    // relative_bpc (4) intent, and values outside every enumeration.
    assert_eq!(map_tf(1), None);
    assert_eq!(map_tf(13), None);
    assert_eq!(map_tf(u32::MAX), None);
    assert_eq!(map_primaries(8), None);
    assert_eq!(map_intent(4), None);
    assert_eq!(map_intent(RENDER_INTENT_RELATIVE), Some(RenderingIntent::RelativeColorimetric));
}

#[test]
fn creator_sets_each_property_once() {
    let mut b = ParamsBuilder::default();
    let mut counter = IdentityCounter::new();
    assert_eq!(
        creator_request(&mut b, &mut counter, CreatorRequest::SetTfNamed { tf: TF_SRGB }),
        CreatorOutcome::Accepted
    );
    let second = creator_request(&mut b, &mut counter, CreatorRequest::SetTfNamed { tf: TF_ST2084_PQ });
    match second {
        CreatorOutcome::Rejected(r) => {
            assert_eq!(r.error, CreatorError::AlreadySet);
            assert_eq!(r.message, "transfer function already set");
        }
        other => panic!("expected already_set, got {other:?}"),
    }
    assert_eq!(b.tf, Some(TransferFunction::Srgb));

    let lum = CreatorRequest::SetLuminances {
        min_lum: 2000,
        max_lum: 80,
        reference_lum: 80,
    };
    assert_eq!(creator_request(&mut b, &mut counter, lum), CreatorOutcome::Accepted);
    match creator_request(&mut b, &mut counter, lum) {
        CreatorOutcome::Rejected(r) => assert_eq!(r.error, CreatorError::AlreadySet),
        other => panic!("expected already_set, got {other:?}"),
    }
}

#[test]
fn creator_rejects_bad_requests() {
    let mut counter = IdentityCounter::new();
    let mut b = ParamsBuilder::default();
    let expect = |out: CreatorOutcome, e: CreatorError| match out {
        CreatorOutcome::Rejected(r) => assert_eq!(r.error, e),
        other => panic!("expected {e:?}, got {other:?}"),
    };
    expect(
        creator_request(&mut b, &mut counter, CreatorRequest::SetTfNamed { tf: 13 }),
        CreatorError::InvalidTf,
    );
    expect(
        creator_request(&mut b, &mut counter, CreatorRequest::SetPrimariesNamed { primaries: 9 }),
        CreatorError::InvalidPrimariesNamed,
    );
    // max_lum 1 cd/m² <= min_lum 1.5 cd/m².
    expect(
        creator_request(
            &mut b,
            &mut counter,
            CreatorRequest::SetLuminances {
                min_lum: 15_000,
                max_lum: 1,
                reference_lum: 80,
            },
        ),
        CreatorError::InvalidLuminance,
    );
    // max_lum equal to min_lum is rejected too.
    expect(
        creator_request(
            &mut b,
            &mut counter,
            CreatorRequest::SetLuminances {
                min_lum: 10_000,
                max_lum: 1,
                reference_lum: 80,
            },
        ),
        CreatorError::InvalidLuminance,
    );
    for req in [
        CreatorRequest::SetTfPower,
        CreatorRequest::SetPrimaries,
        CreatorRequest::SetMasteringDisplayPrimaries,
        CreatorRequest::SetMasteringLuminance,
    ] {
        expect(creator_request(&mut b, &mut counter, req), CreatorError::UnsupportedFeature);
    }
    expect(
        creator_request(&mut b, &mut counter, CreatorRequest::Create),
        CreatorError::IncompleteSet,
    );
    assert_eq!(b, ParamsBuilder::default());
    // No identity was handed out.
    assert_eq!(next_identity(&mut counter), 1);
}

#[test]
fn creator_create_delivers_ready_without_information() {
    let mut counter = IdentityCounter::new();
    let mut b = ParamsBuilder::default();
    creator_request(&mut b, &mut counter, CreatorRequest::SetTfNamed { tf: TF_ST2084_PQ });
    creator_request(&mut b, &mut counter, CreatorRequest::SetPrimariesNamed { primaries: PRIMARIES_BT2020 });
    creator_request(&mut b, &mut counter, CreatorRequest::SetMaxCll { max_cll: 1000 });
    creator_request(&mut b, &mut counter, CreatorRequest::SetMaxFall { max_fall: 400 });
    let data = match creator_request(&mut b, &mut counter, CreatorRequest::Create) {
        CreatorOutcome::CreateDescription(data) => data,
        other => panic!("expected a description, got {other:?}"),
    };
    let ready = data.result.unwrap();
    assert_eq!(ready.identity, 1);
    assert!(!ready.allow_info);
    assert_eq!(ready.description.max_cll, Some(10_000_000));
    assert_eq!(ready.description.max_fall, Some(4_000_000));
    assert_eq!(ready.description.luminance_scale, PQ_MAX_LUMINANCE);
    match description_request(&data, DescriptionRequest::GetInformation) {
        DescriptionOutcome::Rejected(r) => {
            assert_eq!(r.error, DescriptionError::NoInformation);
        }
        other => panic!("expected no_information, got {other:?}"),
    }
    assert_eq!(next_identity(&mut counter), 2);
}

#[test]
fn information_reports_the_description() {
    let pq = information_events(&ImageDescription::pq_bt2020());
    assert_eq!(pq.primaries, Primaries::bt2020());
    assert_eq!(pq.primaries.red.x, 708_000);
    assert_eq!(pq.primaries_named, Some(PRIMARIES_BT2020));
    assert_eq!(pq.tf_named, TF_ST2084_PQ);
    assert_eq!((pq.lum_min, pq.lum_max, pq.lum_reference), (0, 10_000, 203));
    assert_eq!((pq.target_min, pq.target_max), (0, 10_000));

    let srgb = information_events(&ImageDescription::srgb());
    assert_eq!(srgb.primaries_named, Some(PRIMARIES_SRGB));
    assert_eq!(srgb.tf_named, TF_SRGB);
    assert_eq!(srgb.lum_max, 203);

    let scrgb = information_events(&ImageDescription::windows_scrgb());
    assert_eq!(scrgb.tf_named, TF_EXT_LINEAR);

    // Rounding to whole cd/m², halves up; saturation of oversized values.
    let mut d = ImageDescription::srgb();
    d.max_luminance = 1_234_5000;
    d.reference_white = 1_234_4999;
    d.min_luminance = u64::MAX;
    let info = information_events(&d);
    assert_eq!(info.lum_max, 1235);
    assert_eq!(info.lum_reference, 1234);
    assert_eq!(info.lum_min, u32::MAX);

    // Unnamed primaries are only sent as coordinates.
    let mut custom = ImageDescription::srgb();
    custom.primaries.red.x = 650_000;
    assert_eq!(information_events(&custom).primaries_named, None);
}

#[test]
fn information_round_trips_set_luminances() {
    let mut counter = IdentityCounter::new();
    let mut b = ParamsBuilder::default();
    creator_request(&mut b, &mut counter, CreatorRequest::SetTfNamed { tf: TF_SRGB });
    creator_request(&mut b, &mut counter, CreatorRequest::SetPrimariesNamed { primaries: PRIMARIES_SRGB });
    creator_request(
        &mut b,
        &mut counter,
        CreatorRequest::SetLuminances {
            min_lum: 1234,
            max_lum: 400,
            reference_lum: 120,
        },
    );
    let desc = b.build().unwrap();
    let info = information_events(&desc);
    assert_eq!((info.lum_min, info.lum_max, info.lum_reference), (1234, 400, 120));
    assert_eq!(map_tf(info.tf_named), Some(desc.transfer));
    assert_eq!(map_primaries(info.primaries_named.unwrap()), Some(desc.primaries));
}

#[test]
fn description_information_permissions() {
    let mut counter = IdentityCounter::new();
    let failed = make_failed_description();
    match description_request(&failed, DescriptionRequest::GetInformation) {
        DescriptionOutcome::Rejected(r) => {
            assert_eq!(r.error, DescriptionError::NotReady);
            assert_eq!(r.message, "image description is not ready");
        }
        other => panic!("expected not_ready, got {other:?}"),
    }
    let output = make_ready_description(&mut counter, ImageDescription::pq_bt2020(), true);
    assert_eq!(
        description_request(&output, DescriptionRequest::GetInformation),
        DescriptionOutcome::SendInformation(information_events(&ImageDescription::pq_bt2020()))
    );
    assert_eq!(
        description_request(&output, DescriptionRequest::Destroy),
        DescriptionOutcome::Nothing
    );
}

#[test]
fn manager_requests() {
    let mut counter = IdentityCounter::new();
    assert_eq!(manager_request(&mut counter, ManagerRequest::GetOutput), ManagerOutcome::CreateOutput);
    assert_eq!(
        manager_request(&mut counter, ManagerRequest::CreateParametricCreator),
        ManagerOutcome::CreateParametricCreator(ParamsBuilder::default())
    );
    match manager_request(&mut counter, ManagerRequest::CreateIccCreator) {
        ManagerOutcome::Rejected(r) => assert_eq!(r.error, ManagerError::UnsupportedFeature),
        other => panic!("expected unsupported_feature, got {other:?}"),
    }
    let scrgb = match manager_request(&mut counter, ManagerRequest::CreateWindowsScrgb) {
        ManagerOutcome::CreateDescription(data) => data,
        other => panic!("expected a description, got {other:?}"),
    };
    let ready = scrgb.result.unwrap();
    assert_eq!(ready.identity, 1);
    assert_eq!(ready.description, ImageDescription::windows_scrgb());
    assert!(!ready.allow_info);
    assert_eq!(manager_request(&mut counter, ManagerRequest::Destroy), ManagerOutcome::Nothing);
    assert_eq!(next_identity(&mut counter), 2);
}

#[test]
fn second_color_surface_is_rejected_until_destroyed() {
    let mut counter = IdentityCounter::new();
    let mut marker = SurfaceExistsMarker::new();

    let already = marker.claim();
    assert_eq!(
        manager_request(&mut counter, ManagerRequest::GetSurface { already_claimed: already }),
        ManagerOutcome::CreateSurface
    );
    let already = marker.claim();
    match manager_request(&mut counter, ManagerRequest::GetSurface { already_claimed: already }) {
        ManagerOutcome::Rejected(r) => assert_eq!(r.error, ManagerError::SurfaceExists),
        other => panic!("expected surface_exists, got {other:?}"),
    }

    // Destroying the color surface of a live wl_surface releases the marker.
    assert_eq!(
        surface_request(true, SurfaceRequest::Destroy),
        SurfaceOutcome::UnsetAndRelease
    );
    marker.release();
    assert!(!marker.claim());
}

#[test]
fn surface_set_image_description() {
    let mut counter = IdentityCounter::new();
    let data = make_ready_description(&mut counter, ImageDescription::pq_bt2020(), false);
    let set = SurfaceRequest::SetImageDescription {
        render_intent: RENDER_INTENT_PERCEPTUAL,
        description: data.result,
    };
    let config = SurfaceColorConfig {
        description: ImageDescription::pq_bt2020(),
        render_intent: RenderingIntent::Perceptual,
    };
    assert_eq!(surface_request(true, set), SurfaceOutcome::SetPending(Some(config)));

    let expect = |out: SurfaceOutcome, e: SurfaceError| match out {
        SurfaceOutcome::Rejected(r) => assert_eq!(r.error, e),
        other => panic!("expected {e:?}, got {other:?}"),
    };
    expect(surface_request(false, set), SurfaceError::Inert);
    // Known but unsupported intent, and an unknown one.
    for intent in [RENDER_INTENT_RELATIVE, 77] {
        expect(
            surface_request(
                true,
                SurfaceRequest::SetImageDescription {
                    render_intent: intent,
                    description: data.result,
                },
            ),
            SurfaceError::RenderIntent,
        );
    }
    expect(
        surface_request(
            true,
            SurfaceRequest::SetImageDescription {
                render_intent: RENDER_INTENT_PERCEPTUAL,
                description: None,
            },
        ),
        SurfaceError::ImageDescription,
    );
    assert_eq!(
        surface_request(true, SurfaceRequest::UnsetImageDescription),
        SurfaceOutcome::SetPending(None)
    );
    expect(surface_request(false, SurfaceRequest::UnsetImageDescription), SurfaceError::Inert);
    assert_eq!(surface_request(false, SurfaceRequest::Destroy), SurfaceOutcome::Nothing);
}

#[test]
fn cached_state_takes_effect_on_commit() {
    let config = SurfaceColorConfig {
        description: ImageDescription::pq_bt2020(),
        render_intent: RenderingIntent::Perceptual,
    };
    let mut current = ColorSurfaceCachedState::default();
    let mut pending = ColorSurfaceCachedState::default();
    pending.set_config(Some(config));
    assert_eq!(current.config(), None);
    let committed = pending.commit();
    committed.merge_into(&mut current);
    assert_eq!(current.config(), Some(config));
    assert_eq!(pending.config(), Some(config));
}

#[test]
fn output_and_feedback_requests() {
    assert_eq!(
        output_request(true, OutputRequest::GetImageDescription),
        OutputOutcome::DescribeOutput { allow_info: true }
    );
    match output_request(false, OutputRequest::GetImageDescription) {
        OutputOutcome::Failed(f) => {
            assert_eq!(f.cause, FailureCause::NoOutput);
            assert_eq!(f.message, "the output no longer exists");
        }
        other => panic!("expected failed, got {other:?}"),
    }
    assert_eq!(output_request(true, OutputRequest::Destroy), OutputOutcome::Nothing);
    for req in [FeedbackRequest::GetPreferred, FeedbackRequest::GetPreferredParametric] {
        assert_eq!(
            feedback_request(true, req),
            FeedbackOutcome::DescribePreferred { allow_info: true }
        );
        match feedback_request(false, req) {
            FeedbackOutcome::Rejected(r) => assert_eq!(r.error, FeedbackError::Inert),
            other => panic!("expected inert, got {other:?}"),
        }
    }
    assert_eq!(feedback_request(true, FeedbackRequest::Destroy), FeedbackOutcome::Nothing);
    let _ = SDR_REFERENCE_WHITE;
}

#[test]
fn error_codes_match_the_protocol_enumerations() {
    assert_eq!(CreatorError::IncompleteSet.code(), CreatorErr::IncompleteSet as u32);
    assert_eq!(CreatorError::AlreadySet.code(), CreatorErr::AlreadySet as u32);
    assert_eq!(CreatorError::UnsupportedFeature.code(), CreatorErr::UnsupportedFeature as u32);
    assert_eq!(CreatorError::InvalidTf.code(), CreatorErr::InvalidTf as u32);
    assert_eq!(
        CreatorError::InvalidPrimariesNamed.code(),
        CreatorErr::InvalidPrimariesNamed as u32
    );
    assert_eq!(CreatorError::InvalidLuminance.code(), CreatorErr::InvalidLuminance as u32);
    assert_eq!(SurfaceError::RenderIntent.code(), SurfaceErr::RenderIntent as u32);
    assert_eq!(SurfaceError::ImageDescription.code(), SurfaceErr::ImageDescription as u32);
    assert_eq!(SurfaceError::Inert.code(), SurfaceErr::Inert as u32);
    assert_eq!(FeedbackError::Inert.code(), FeedbackErr::Inert as u32);
    assert_eq!(DescriptionError::NotReady.code(), DescErr::NotReady as u32);
    assert_eq!(DescriptionError::NoInformation.code(), DescErr::NoInformation as u32);
    assert_eq!(FailureCause::NoOutput.code(), Cause::NoOutput as u32);
    assert_eq!(ManagerError::UnsupportedFeature.code(), ManagerErr::UnsupportedFeature as u32);
    assert_eq!(ManagerError::SurfaceExists.code(), ManagerErr::SurfaceExists as u32);
}

fn make_parametric(counter: &mut IdentityCounter, tf: u32, primaries: u32) -> CreatorOutcome {
    let mut b = match manager_request(counter, ManagerRequest::CreateParametricCreator) {
        ManagerOutcome::CreateParametricCreator(b) => b,
        other => panic!("expected a creator, got {other:?}"),
    };
    creator_request(&mut b, counter, CreatorRequest::SetTfNamed { tf });
    creator_request(&mut b, counter, CreatorRequest::SetPrimariesNamed { primaries });
    creator_request(&mut b, counter, CreatorRequest::Create)
}

fn is_ready(outcome: CreatorOutcome) -> bool {
    matches!(outcome, CreatorOutcome::CreateDescription(d) if d.result.is_some())
}

#[test]
fn advertises_caps_and_creates_named_descriptions() {
    // Capabilities advertised on bind.
    let events = bind_events();
    assert!(events.contains(&CapabilityEvent::Done), "manager did not send done");
    assert!(advertised_intents().contains(&(RenderIntent::Perceptual as u32)));
    assert!(events.contains(&CapabilityEvent::SupportedFeature(Feature::Parametric as u32)));
    assert!(events.contains(&CapabilityEvent::SupportedFeature(Feature::WindowsScrgb as u32)));
    assert!(advertised_tfs().contains(&(Tf::Srgb as u32)));
    assert!(advertised_tfs().contains(&(Tf::St2084Pq as u32)));
    assert!(advertised_tfs().contains(&(Tf::ExtLinear as u32)));
    assert!(advertised_primaries().contains(&(P::Srgb as u32)));
    assert!(advertised_primaries().contains(&(P::Bt2020 as u32)));

    let mut counter = IdentityCounter::new();
    let srgb = make_parametric(&mut counter, Tf::Srgb as u32, P::Srgb as u32);
    let pq = make_parametric(&mut counter, Tf::St2084Pq as u32, P::Bt2020 as u32);
    let scrgb = manager_request(&mut counter, ManagerRequest::CreateWindowsScrgb);

    assert!(is_ready(srgb), "sRGB not ready");
    assert!(is_ready(pq), "PQ/BT.2020 not ready");
    assert!(
        matches!(scrgb, ManagerOutcome::CreateDescription(d) if d.result.is_some()),
        "Windows-scRGB not ready"
    );
}

#[test]
fn incomplete_parametric_set_is_a_protocol_error() {
    // Create with a transfer function but no primaries -> incomplete_set.
    let mut counter = IdentityCounter::new();
    let mut b = ParamsBuilder::default();
    creator_request(&mut b, &mut counter, CreatorRequest::SetTfNamed { tf: Tf::Srgb as u32 });
    let res = creator_request(&mut b, &mut counter, CreatorRequest::Create);
    assert!(
        matches!(res, CreatorOutcome::Rejected(r) if r.error == CreatorError::IncompleteSet),
        "expected an incomplete_set protocol error"
    );
}

#[test]
fn output_get_information_delivers_done() {
    let mut counter = IdentityCounter::new();
    let data = match output_request(true, OutputRequest::GetImageDescription) {
        OutputOutcome::DescribeOutput { allow_info } => {
            // The compositor's default description for an output.
            make_ready_description(&mut counter, ImageDescription::srgb(), allow_info)
        }
        other => panic!("expected a description, got {other:?}"),
    };
    assert!(data.result.is_some(), "output image description not ready");
    assert!(
        matches!(
            description_request(&data, DescriptionRequest::GetInformation),
            DescriptionOutcome::SendInformation(_)
        ),
        "wp_image_description_info_v1.done not received"
    );
}

#[test]
fn committed_description_follows_commits() {
    // A surface that was never tagged is untagged.
    let mut current = ColorSurfaceCachedState::default();
    let mut pending = ColorSurfaceCachedState::new();
    assert_eq!(current.config(), None);
    assert_eq!(ColorSurfaceCachedState::default(), ColorSurfaceCachedState::new());
    let config = SurfaceColorConfig {
        description: ImageDescription::srgb(),
        render_intent: RenderingIntent::Perceptual,
    };
    // Set but not committed: the committed value stays.
    pending.set_config(Some(config));
    assert_eq!(current.config(), None);
    pending.commit().merge_into(&mut current);
    assert_eq!(current.config(), Some(config));
    // Unset, then commit: untagged again.
    pending.set_config(None);
    assert_eq!(current.config(), Some(config));
    pending.commit().merge_into(&mut current);
    assert_eq!(current.config(), None);
    let mut marker = SurfaceExistsMarker::default();
    assert!(!marker.claim());
}

#[test]
fn surface_marker_follows_color_surface_lifetime() {
    let mut counter = IdentityCounter::new();
    let mut marker = SurfaceExistsMarker::new();
    let get = |marker: &mut SurfaceExistsMarker, counter: &mut IdentityCounter| {
        let already = surface_marker_event(marker, ColorSurfaceEvent::GetSurface);
        manager_request(counter, ManagerRequest::GetSurface { already_claimed: already })
    };
    assert_eq!(get(&mut marker, &mut counter), ManagerOutcome::CreateSurface);
    assert!(matches!(get(&mut marker, &mut counter), ManagerOutcome::Rejected(_)));
    // A destroy that finds no live surface releases nothing.
    surface_marker_event(&mut marker, ColorSurfaceEvent::Destroy { surface_alive: false });
    assert!(matches!(get(&mut marker, &mut counter), ManagerOutcome::Rejected(_)));
    surface_marker_event(&mut marker, ColorSurfaceEvent::Destroy { surface_alive: true });
    assert_eq!(get(&mut marker, &mut counter), ManagerOutcome::CreateSurface);
    surface_marker_event(&mut marker, ColorSurfaceEvent::Destroyed { surface_alive: true });
    assert_eq!(get(&mut marker, &mut counter), ManagerOutcome::CreateSurface);
}
