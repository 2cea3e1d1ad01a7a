use quick_noise::perlin::{PerlinContainer2D, PerlinContainer3D};

#[test]
fn new_plane_window_is_zero() {
    let window = PerlinContainer2D::new_uninit();
    assert_eq!(window.tl(), &[0u8; 32]);
    assert_eq!(window.tr(), &[0u8; 32]);
    assert_eq!(window.bl(), &[0u8; 32]);
    assert_eq!(window.br(), &[0u8; 32]);
}

#[test]
fn plane_edges_are_written_apart() {
    let mut window = PerlinContainer2D::new_uninit();
    {
        let (tl, tr) = window.tl_tr_mut();
        tl[3] = 7;
        tr[4] = 9;
    }
    {
        let (bl, br) = window.bl_br_mut();
        bl[5] = 11;
        br[6] = 13;
    }
    assert_eq!(window.tl()[3], 7);
    assert_eq!(window.tr()[4], 9);
    assert_eq!(window.bl()[5], 11);
    assert_eq!(window.br()[6], 13);
    assert_eq!(window.tl().iter().filter(|v| **v != 0).count(), 1);
    assert_eq!(window.tr().iter().filter(|v| **v != 0).count(), 1);
    assert_eq!(window.bl().iter().filter(|v| **v != 0).count(), 1);
    assert_eq!(window.br().iter().filter(|v| **v != 0).count(), 1);
}

#[test]
fn plane_swap_exchanges_top_and_bottom() {
    let mut window = PerlinContainer2D::new_uninit();
    {
        let (tl, tr) = window.tl_tr_mut();
        tl[0] = 1;
        tr[0] = 2;
    }
    {
        let (bl, br) = window.bl_br_mut();
        bl[0] = 3;
        br[0] = 4;
    }
    window.swap_top_bottom();
    assert_eq!(window.tl()[0], 3);
    assert_eq!(window.tr()[0], 4);
    assert_eq!(window.bl()[0], 1);
    assert_eq!(window.br()[0], 2);
    {
        let (bl, br) = window.bl_br_mut();
        bl[0] = 5;
        br[0] = 6;
    }
    assert_eq!(window.tl()[0], 3);
    assert_eq!(window.tr()[0], 4);
    window.swap_top_bottom();
    assert_eq!(window.tl()[0], 5);
    assert_eq!(window.tr()[0], 6);
    assert_eq!(window.bl()[0], 3);
    assert_eq!(window.br()[0], 4);
}

#[test]
fn new_space_window_is_zero() {
    let window = PerlinContainer3D::new_uninit();
    for row in [
        window.tlf(),
        window.trf(),
        window.tlb(),
        window.trb(),
        window.blf(),
        window.brf(),
        window.blb(),
        window.brb(),
    ] {
        assert_eq!(row, &[0u8; 32]);
    }
}

#[test]
fn space_faces_are_written_apart() {
    let mut window = PerlinContainer3D::new_uninit();
    {
        let (tlf, trf, tlb, trb) = window.tlf_trf_tlb_trb_mut();
        tlf[1] = 1;
        trf[1] = 2;
        tlb[1] = 3;
        trb[1] = 4;
    }
    {
        let (blf, brf, blb, brb) = window.blf_brf_blb_brb_mut();
        blf[1] = 5;
        brf[1] = 6;
        blb[1] = 7;
        brb[1] = 8;
    }
    let seen = [
        window.tlf()[1],
        window.trf()[1],
        window.tlb()[1],
        window.trb()[1],
        window.blf()[1],
        window.brf()[1],
        window.blb()[1],
        window.brb()[1],
    ];
    assert_eq!(seen, [1, 2, 3, 4, 5, 6, 7, 8]);
}

#[test]
fn space_swap_exchanges_top_and_bottom() {
    let mut window = PerlinContainer3D::new_uninit();
    {
        let (tlf, trf, tlb, trb) = window.tlf_trf_tlb_trb_mut();
        tlf[31] = 1;
        trf[31] = 2;
        tlb[31] = 3;
        trb[31] = 4;
    }
    {
        let (blf, brf, blb, brb) = window.blf_brf_blb_brb_mut();
        blf[31] = 5;
        brf[31] = 6;
        blb[31] = 7;
        brb[31] = 8;
    }
    window.swap_top_bottom();
    let seen = [
        window.tlf()[31],
        window.trf()[31],
        window.tlb()[31],
        window.trb()[31],
        window.blf()[31],
        window.brf()[31],
        window.blb()[31],
        window.brb()[31],
    ];
    assert_eq!(seen, [5, 6, 7, 8, 1, 2, 3, 4]);
    {
        let (tlf, _, _, _) = window.tlf_trf_tlb_trb_mut();
        tlf[31] = 9;
    }
    window.swap_top_bottom();
    assert_eq!(window.blf()[31], 9);
    assert_eq!(window.tlf()[31], 1);
}
