use vstd::prelude::*;

verus! {

/// The instruction words of the implemented instructions, with the bits
/// that select registers or data cleared; and the masks that clear them.
pub const MASK_OUT_X_Y: u32 = 0xf1f8;
pub const MASK_OUT_X: u32 = 0xf1ff;
pub const MASK_OUT_Y: u32 = 0xfff8;
pub const MASK_EXACT: u32 = 0xffff;
pub const MASK_LOBYTE: u32 = 0xff00;
pub const MASK_LOBYTX: u32 = 0xf100;
pub const MASK_LO3NIB: u32 = 0xf000;
pub const MASK_LONIB: u32 = 0xfff0;
pub const OP_ILLEGAL: u32 = 0x4afc;
pub const OP_NOP: u32 = 0x4e71;
pub const OP_RESET: u32 = 0x4e70;
pub const OP_STOP: u32 = 0x4e72;
pub const OP_TRAP: u32 = 0x4e40;
pub const OP_TRAPV: u32 = 0x4e76;
pub const OP_RTE_32: u32 = 0x4e73;
pub const OP_RTS_32: u32 = 0x4e75;
pub const OP_RTR_32: u32 = 0x4e77;
pub const OP_ANDI_8_TOC: u32 = 0x023c;
pub const OP_ANDI_16_TOS: u32 = 0x027c;
pub const OP_EORI_8_TOC: u32 = 0x0a3c;
pub const OP_EORI_16_TOS: u32 = 0x0a7c;
pub const OP_ORI_8_TOC: u32 = 0x003c;
pub const OP_ORI_16_TOS: u32 = 0x007c;
pub const OP_BRA_16: u32 = 0x6000;
pub const OP_BSR_16: u32 = 0x6100;
pub const OP_LINK_16: u32 = 0x4e50;
pub const OP_UNLK_32: u32 = 0x4e58;
pub const OP_MOVE_32_TOU: u32 = 0x4e60;
pub const OP_MOVE_32_FRU: u32 = 0x4e68;
pub const OP_SWAP_32_DN: u32 = 0x4840;
pub const OP_EXT_BW: u32 = 0x4880;
pub const OP_EXT_WL: u32 = 0x48c0;
pub const OP_EXG_32_DD: u32 = 0xc140;
pub const OP_EXG_32_AA: u32 = 0xc148;
pub const OP_EXG_32_DA: u32 = 0xc188;
pub const OP_MOVEQ_32: u32 = 0x7000;
pub const OP_BRA_8: u32 = 0x6000;
pub const OP_BSR_8: u32 = 0x6100;
pub const OP_ADDQ_16_AN: u32 = 0x5048;
pub const OP_ADDQ_32_AN: u32 = 0x5088;
pub const OP_SUBQ_16_AN: u32 = 0x5148;
pub const OP_SUBQ_32_AN: u32 = 0x5188;
pub const OP_BCHG_32_R_DN: u32 = 0x0140;
pub const OP_BCHG_32_S_DN: u32 = 0x0840;
pub const OP_BCLR_32_R_DN: u32 = 0x0180;
pub const OP_BCLR_32_S_DN: u32 = 0x0880;
pub const OP_BSET_32_R_DN: u32 = 0x01c0;
pub const OP_BSET_32_S_DN: u32 = 0x08c0;
pub const OP_BTST_32_R_DN: u32 = 0x0100;
pub const OP_BTST_32_S_DN: u32 = 0x0800;
pub const OP_CLR_8_DN: u32 = 0x4200;
pub const OP_CLR_16_DN: u32 = 0x4240;
pub const OP_CLR_32_DN: u32 = 0x4280;
pub const OP_MOVEP_16_ER: u32 = 0x0108;
pub const OP_MOVEP_16_RE: u32 = 0x0188;
pub const OP_MOVEP_32_ER: u32 = 0x0148;
pub const OP_MOVEP_32_RE: u32 = 0x01c8;
pub const OP_CHK_16_AI: u32 = 0x4190;
pub const OP_CHK_16_AL: u32 = 0x41b9;
pub const OP_CHK_16_AW: u32 = 0x41b8;
pub const OP_CHK_16_DN: u32 = 0x4180;
pub const OP_CHK_16_DI: u32 = 0x41a8;
pub const OP_CHK_16_IMM: u32 = 0x41bc;
pub const OP_CHK_16_IX: u32 = 0x41b0;
pub const OP_CHK_16_PCDI: u32 = 0x41ba;
pub const OP_CHK_16_PCIX: u32 = 0x41bb;
pub const OP_CHK_16_PD: u32 = 0x41a0;
pub const OP_CHK_16_PI: u32 = 0x4198;
pub const OP_ADD_8_ER_DN: u32 = 0xd000;
pub const OP_ADD_8_ER_AI: u32 = 0xd010;
pub const OP_ADD_8_ER_PI: u32 = 0xd018;
pub const OP_ADD_8_ER_PD: u32 = 0xd020;
pub const OP_ADD_8_ER_DI: u32 = 0xd028;
pub const OP_ADD_8_ER_IX: u32 = 0xd030;
pub const OP_ADD_8_ER_AW: u32 = 0xd038;
pub const OP_ADD_8_ER_AL: u32 = 0xd039;
pub const OP_ADD_8_ER_PCDI: u32 = 0xd03a;
pub const OP_ADD_8_ER_PCIX: u32 = 0xd03b;
pub const OP_ADD_8_ER_IMM: u32 = 0xd03c;
pub const OP_ADD_8_RE_AI: u32 = 0xd110;
pub const OP_ADD_8_RE_PI: u32 = 0xd118;
pub const OP_ADD_8_RE_PD: u32 = 0xd120;
pub const OP_ADD_8_RE_DI: u32 = 0xd128;
pub const OP_ADD_8_RE_IX: u32 = 0xd130;
pub const OP_ADD_8_RE_AW: u32 = 0xd138;
pub const OP_ADD_8_RE_AL: u32 = 0xd139;
pub const OP_ADD_16_ER_DN: u32 = 0xd040;
pub const OP_ADD_16_ER_AN: u32 = 0xd048;
pub const OP_ADD_16_ER_AI: u32 = 0xd050;
pub const OP_ADD_16_ER_PI: u32 = 0xd058;
pub const OP_ADD_16_ER_PD: u32 = 0xd060;
pub const OP_ADD_16_ER_DI: u32 = 0xd068;
pub const OP_ADD_16_ER_IX: u32 = 0xd070;
pub const OP_ADD_16_ER_AW: u32 = 0xd078;
pub const OP_ADD_16_ER_AL: u32 = 0xd079;
pub const OP_ADD_16_ER_PCDI: u32 = 0xd07a;
pub const OP_ADD_16_ER_PCIX: u32 = 0xd07b;
pub const OP_ADD_16_ER_IMM: u32 = 0xd07c;
pub const OP_ADD_16_RE_AI: u32 = 0xd150;
pub const OP_ADD_16_RE_PI: u32 = 0xd158;
pub const OP_ADD_16_RE_PD: u32 = 0xd160;
pub const OP_ADD_16_RE_DI: u32 = 0xd168;
pub const OP_ADD_16_RE_IX: u32 = 0xd170;
pub const OP_ADD_16_RE_AW: u32 = 0xd178;
pub const OP_ADD_16_RE_AL: u32 = 0xd179;
pub const OP_ADD_32_ER_DN: u32 = 0xd080;
pub const OP_ADD_32_ER_AN: u32 = 0xd088;
pub const OP_ADD_32_ER_AI: u32 = 0xd090;
pub const OP_ADD_32_ER_PI: u32 = 0xd098;
pub const OP_ADD_32_ER_PD: u32 = 0xd0a0;
pub const OP_ADD_32_ER_DI: u32 = 0xd0a8;
pub const OP_ADD_32_ER_IX: u32 = 0xd0b0;
pub const OP_ADD_32_ER_AW: u32 = 0xd0b8;
pub const OP_ADD_32_ER_AL: u32 = 0xd0b9;
pub const OP_ADD_32_ER_PCDI: u32 = 0xd0ba;
pub const OP_ADD_32_ER_PCIX: u32 = 0xd0bb;
pub const OP_ADD_32_ER_IMM: u32 = 0xd0bc;
pub const OP_ADD_32_RE_AI: u32 = 0xd190;
pub const OP_ADD_32_RE_PI: u32 = 0xd198;
pub const OP_ADD_32_RE_PD: u32 = 0xd1a0;
pub const OP_ADD_32_RE_DI: u32 = 0xd1a8;
pub const OP_ADD_32_RE_IX: u32 = 0xd1b0;
pub const OP_ADD_32_RE_AW: u32 = 0xd1b8;
pub const OP_ADD_32_RE_AL: u32 = 0xd1b9;
pub const OP_ADDI_8_DN: u32 = 0x0600;
pub const OP_ADDI_8_AI: u32 = 0x0610;
pub const OP_ADDI_8_PI: u32 = 0x0618;
pub const OP_ADDI_8_PD: u32 = 0x0620;
pub const OP_ADDI_8_DI: u32 = 0x0628;
pub const OP_ADDI_8_IX: u32 = 0x0630;
pub const OP_ADDI_8_AW: u32 = 0x0638;
pub const OP_ADDI_8_AL: u32 = 0x0639;
pub const OP_ADDI_16_DN: u32 = 0x0640;
pub const OP_ADDI_16_AI: u32 = 0x0650;
pub const OP_ADDI_16_PI: u32 = 0x0658;
pub const OP_ADDI_16_PD: u32 = 0x0660;
pub const OP_ADDI_16_DI: u32 = 0x0668;
pub const OP_ADDI_16_IX: u32 = 0x0670;
pub const OP_ADDI_16_AW: u32 = 0x0678;
pub const OP_ADDI_16_AL: u32 = 0x0679;
pub const OP_ADDI_32_DN: u32 = 0x0680;
pub const OP_ADDI_32_AI: u32 = 0x0690;
pub const OP_ADDI_32_PI: u32 = 0x0698;
pub const OP_ADDI_32_PD: u32 = 0x06a0;
pub const OP_ADDI_32_DI: u32 = 0x06a8;
pub const OP_ADDI_32_IX: u32 = 0x06b0;
pub const OP_ADDI_32_AW: u32 = 0x06b8;
pub const OP_ADDI_32_AL: u32 = 0x06b9;
pub const OP_ADDQ_8_DN: u32 = 0x5000;
pub const OP_ADDQ_8_AI: u32 = 0x5010;
pub const OP_ADDQ_8_PI: u32 = 0x5018;
pub const OP_ADDQ_8_PD: u32 = 0x5020;
pub const OP_ADDQ_8_DI: u32 = 0x5028;
pub const OP_ADDQ_8_IX: u32 = 0x5030;
pub const OP_ADDQ_8_AW: u32 = 0x5038;
pub const OP_ADDQ_8_AL: u32 = 0x5039;
pub const OP_ADDQ_16_DN: u32 = 0x5040;
pub const OP_ADDQ_16_AI: u32 = 0x5050;
pub const OP_ADDQ_16_PI: u32 = 0x5058;
pub const OP_ADDQ_16_PD: u32 = 0x5060;
pub const OP_ADDQ_16_DI: u32 = 0x5068;
pub const OP_ADDQ_16_IX: u32 = 0x5070;
pub const OP_ADDQ_16_AW: u32 = 0x5078;
pub const OP_ADDQ_16_AL: u32 = 0x5079;
pub const OP_ADDQ_32_DN: u32 = 0x5080;
pub const OP_ADDQ_32_AI: u32 = 0x5090;
pub const OP_ADDQ_32_PI: u32 = 0x5098;
pub const OP_ADDQ_32_PD: u32 = 0x50a0;
pub const OP_ADDQ_32_DI: u32 = 0x50a8;
pub const OP_ADDQ_32_IX: u32 = 0x50b0;
pub const OP_ADDQ_32_AW: u32 = 0x50b8;
pub const OP_ADDQ_32_AL: u32 = 0x50b9;
pub const OP_AND_8_ER_DN: u32 = 0xc000;
pub const OP_AND_8_ER_AI: u32 = 0xc010;
pub const OP_AND_8_ER_PI: u32 = 0xc018;
pub const OP_AND_8_ER_PD: u32 = 0xc020;
pub const OP_AND_8_ER_DI: u32 = 0xc028;
pub const OP_AND_8_ER_IX: u32 = 0xc030;
pub const OP_AND_8_ER_AW: u32 = 0xc038;
pub const OP_AND_8_ER_AL: u32 = 0xc039;
pub const OP_AND_8_ER_PCDI: u32 = 0xc03a;
pub const OP_AND_8_ER_PCIX: u32 = 0xc03b;
pub const OP_AND_8_ER_IMM: u32 = 0xc03c;
pub const OP_AND_8_RE_AI: u32 = 0xc110;
pub const OP_AND_8_RE_PI: u32 = 0xc118;
pub const OP_AND_8_RE_PD: u32 = 0xc120;
pub const OP_AND_8_RE_DI: u32 = 0xc128;
pub const OP_AND_8_RE_IX: u32 = 0xc130;
pub const OP_AND_8_RE_AW: u32 = 0xc138;
pub const OP_AND_8_RE_AL: u32 = 0xc139;
pub const OP_AND_16_ER_DN: u32 = 0xc040;
pub const OP_AND_16_ER_AI: u32 = 0xc050;
pub const OP_AND_16_ER_PI: u32 = 0xc058;
pub const OP_AND_16_ER_PD: u32 = 0xc060;
pub const OP_AND_16_ER_DI: u32 = 0xc068;
pub const OP_AND_16_ER_IX: u32 = 0xc070;
pub const OP_AND_16_ER_AW: u32 = 0xc078;
pub const OP_AND_16_ER_AL: u32 = 0xc079;
pub const OP_AND_16_ER_PCDI: u32 = 0xc07a;
pub const OP_AND_16_ER_PCIX: u32 = 0xc07b;
pub const OP_AND_16_ER_IMM: u32 = 0xc07c;
pub const OP_AND_16_RE_AI: u32 = 0xc150;
pub const OP_AND_16_RE_PI: u32 = 0xc158;
pub const OP_AND_16_RE_PD: u32 = 0xc160;
pub const OP_AND_16_RE_DI: u32 = 0xc168;
pub const OP_AND_16_RE_IX: u32 = 0xc170;
pub const OP_AND_16_RE_AW: u32 = 0xc178;
pub const OP_AND_16_RE_AL: u32 = 0xc179;
pub const OP_AND_32_ER_DN: u32 = 0xc080;
pub const OP_AND_32_ER_AI: u32 = 0xc090;
pub const OP_AND_32_ER_PI: u32 = 0xc098;
pub const OP_AND_32_ER_PD: u32 = 0xc0a0;
pub const OP_AND_32_ER_DI: u32 = 0xc0a8;
pub const OP_AND_32_ER_IX: u32 = 0xc0b0;
pub const OP_AND_32_ER_AW: u32 = 0xc0b8;
pub const OP_AND_32_ER_AL: u32 = 0xc0b9;
pub const OP_AND_32_ER_PCDI: u32 = 0xc0ba;
pub const OP_AND_32_ER_PCIX: u32 = 0xc0bb;
pub const OP_AND_32_ER_IMM: u32 = 0xc0bc;
pub const OP_AND_32_RE_AI: u32 = 0xc190;
pub const OP_AND_32_RE_PI: u32 = 0xc198;
pub const OP_AND_32_RE_PD: u32 = 0xc1a0;
pub const OP_AND_32_RE_DI: u32 = 0xc1a8;
pub const OP_AND_32_RE_IX: u32 = 0xc1b0;
pub const OP_AND_32_RE_AW: u32 = 0xc1b8;
pub const OP_AND_32_RE_AL: u32 = 0xc1b9;
pub const OP_ANDI_8_DN: u32 = 0x0200;
pub const OP_ANDI_8_AI: u32 = 0x0210;
pub const OP_ANDI_8_PI: u32 = 0x0218;
pub const OP_ANDI_8_PD: u32 = 0x0220;
pub const OP_ANDI_8_DI: u32 = 0x0228;
pub const OP_ANDI_8_IX: u32 = 0x0230;
pub const OP_ANDI_8_AW: u32 = 0x0238;
pub const OP_ANDI_8_AL: u32 = 0x0239;
pub const OP_ANDI_16_DN: u32 = 0x0240;
pub const OP_ANDI_16_AI: u32 = 0x0250;
pub const OP_ANDI_16_PI: u32 = 0x0258;
pub const OP_ANDI_16_PD: u32 = 0x0260;
pub const OP_ANDI_16_DI: u32 = 0x0268;
pub const OP_ANDI_16_IX: u32 = 0x0270;
pub const OP_ANDI_16_AW: u32 = 0x0278;
pub const OP_ANDI_16_AL: u32 = 0x0279;
pub const OP_ANDI_32_DN: u32 = 0x0280;
pub const OP_ANDI_32_AI: u32 = 0x0290;
pub const OP_ANDI_32_PI: u32 = 0x0298;
pub const OP_ANDI_32_PD: u32 = 0x02a0;
pub const OP_ANDI_32_DI: u32 = 0x02a8;
pub const OP_ANDI_32_IX: u32 = 0x02b0;
pub const OP_ANDI_32_AW: u32 = 0x02b8;
pub const OP_ANDI_32_AL: u32 = 0x02b9;
pub const OP_CMPI_8_DN: u32 = 0x0c00;
pub const OP_CMPI_8_AI: u32 = 0x0c10;
pub const OP_CMPI_8_PI: u32 = 0x0c18;
pub const OP_CMPI_8_PD: u32 = 0x0c20;
pub const OP_CMPI_8_DI: u32 = 0x0c28;
pub const OP_CMPI_8_IX: u32 = 0x0c30;
pub const OP_CMPI_8_AW: u32 = 0x0c38;
pub const OP_CMPI_8_AL: u32 = 0x0c39;
pub const OP_CMPI_16_DN: u32 = 0x0c40;
pub const OP_CMPI_16_AI: u32 = 0x0c50;
pub const OP_CMPI_16_PI: u32 = 0x0c58;
pub const OP_CMPI_16_PD: u32 = 0x0c60;
pub const OP_CMPI_16_DI: u32 = 0x0c68;
pub const OP_CMPI_16_IX: u32 = 0x0c70;
pub const OP_CMPI_16_AW: u32 = 0x0c78;
pub const OP_CMPI_16_AL: u32 = 0x0c79;
pub const OP_CMPI_32_DN: u32 = 0x0c80;
pub const OP_CMPI_32_AI: u32 = 0x0c90;
pub const OP_CMPI_32_PI: u32 = 0x0c98;
pub const OP_CMPI_32_PD: u32 = 0x0ca0;
pub const OP_CMPI_32_DI: u32 = 0x0ca8;
pub const OP_CMPI_32_IX: u32 = 0x0cb0;
pub const OP_CMPI_32_AW: u32 = 0x0cb8;
pub const OP_CMPI_32_AL: u32 = 0x0cb9;
pub const OP_EOR_8_DN: u32 = 0xb100;
pub const OP_EOR_8_AI: u32 = 0xb110;
pub const OP_EOR_8_PI: u32 = 0xb118;
pub const OP_EOR_8_PD: u32 = 0xb120;
pub const OP_EOR_8_DI: u32 = 0xb128;
pub const OP_EOR_8_IX: u32 = 0xb130;
pub const OP_EOR_8_AW: u32 = 0xb138;
pub const OP_EOR_8_AL: u32 = 0xb139;
pub const OP_EOR_16_DN: u32 = 0xb140;
pub const OP_EOR_16_AI: u32 = 0xb150;
pub const OP_EOR_16_PI: u32 = 0xb158;
pub const OP_EOR_16_PD: u32 = 0xb160;
pub const OP_EOR_16_DI: u32 = 0xb168;
pub const OP_EOR_16_IX: u32 = 0xb170;
pub const OP_EOR_16_AW: u32 = 0xb178;
pub const OP_EOR_16_AL: u32 = 0xb179;
pub const OP_EOR_32_DN: u32 = 0xb180;
pub const OP_EOR_32_AI: u32 = 0xb190;
pub const OP_EOR_32_PI: u32 = 0xb198;
pub const OP_EOR_32_PD: u32 = 0xb1a0;
pub const OP_EOR_32_DI: u32 = 0xb1a8;
pub const OP_EOR_32_IX: u32 = 0xb1b0;
pub const OP_EOR_32_AW: u32 = 0xb1b8;
pub const OP_EOR_32_AL: u32 = 0xb1b9;
pub const OP_EORI_8_DN: u32 = 0x0a00;
pub const OP_EORI_8_AI: u32 = 0x0a10;
pub const OP_EORI_8_PI: u32 = 0x0a18;
pub const OP_EORI_8_PD: u32 = 0x0a20;
pub const OP_EORI_8_DI: u32 = 0x0a28;
pub const OP_EORI_8_IX: u32 = 0x0a30;
pub const OP_EORI_8_AW: u32 = 0x0a38;
pub const OP_EORI_8_AL: u32 = 0x0a39;
pub const OP_EORI_16_DN: u32 = 0x0a40;
pub const OP_EORI_16_AI: u32 = 0x0a50;
pub const OP_EORI_16_PI: u32 = 0x0a58;
pub const OP_EORI_16_PD: u32 = 0x0a60;
pub const OP_EORI_16_DI: u32 = 0x0a68;
pub const OP_EORI_16_IX: u32 = 0x0a70;
pub const OP_EORI_16_AW: u32 = 0x0a78;
pub const OP_EORI_16_AL: u32 = 0x0a79;
pub const OP_EORI_32_DN: u32 = 0x0a80;
pub const OP_EORI_32_AI: u32 = 0x0a90;
pub const OP_EORI_32_PI: u32 = 0x0a98;
pub const OP_EORI_32_PD: u32 = 0x0aa0;
pub const OP_EORI_32_DI: u32 = 0x0aa8;
pub const OP_EORI_32_IX: u32 = 0x0ab0;
pub const OP_EORI_32_AW: u32 = 0x0ab8;
pub const OP_EORI_32_AL: u32 = 0x0ab9;
pub const OP_OR_8_ER_DN: u32 = 0x8000;
pub const OP_OR_8_ER_AI: u32 = 0x8010;
pub const OP_OR_8_ER_PI: u32 = 0x8018;
pub const OP_OR_8_ER_PD: u32 = 0x8020;
pub const OP_OR_8_ER_DI: u32 = 0x8028;
pub const OP_OR_8_ER_IX: u32 = 0x8030;
pub const OP_OR_8_ER_AW: u32 = 0x8038;
pub const OP_OR_8_ER_AL: u32 = 0x8039;
pub const OP_OR_8_ER_PCDI: u32 = 0x803a;
pub const OP_OR_8_ER_PCIX: u32 = 0x803b;
pub const OP_OR_8_ER_IMM: u32 = 0x803c;
pub const OP_OR_8_RE_AI: u32 = 0x8110;
pub const OP_OR_8_RE_PI: u32 = 0x8118;
pub const OP_OR_8_RE_PD: u32 = 0x8120;
pub const OP_OR_8_RE_DI: u32 = 0x8128;
pub const OP_OR_8_RE_IX: u32 = 0x8130;
pub const OP_OR_8_RE_AW: u32 = 0x8138;
pub const OP_OR_8_RE_AL: u32 = 0x8139;
pub const OP_OR_16_ER_DN: u32 = 0x8040;
pub const OP_OR_16_ER_AI: u32 = 0x8050;
pub const OP_OR_16_ER_PI: u32 = 0x8058;
pub const OP_OR_16_ER_PD: u32 = 0x8060;
pub const OP_OR_16_ER_DI: u32 = 0x8068;
pub const OP_OR_16_ER_IX: u32 = 0x8070;
pub const OP_OR_16_ER_AW: u32 = 0x8078;
pub const OP_OR_16_ER_AL: u32 = 0x8079;
pub const OP_OR_16_ER_PCDI: u32 = 0x807a;
pub const OP_OR_16_ER_PCIX: u32 = 0x807b;
pub const OP_OR_16_ER_IMM: u32 = 0x807c;
pub const OP_OR_16_RE_AI: u32 = 0x8150;
pub const OP_OR_16_RE_PI: u32 = 0x8158;
pub const OP_OR_16_RE_PD: u32 = 0x8160;
pub const OP_OR_16_RE_DI: u32 = 0x8168;
pub const OP_OR_16_RE_IX: u32 = 0x8170;
pub const OP_OR_16_RE_AW: u32 = 0x8178;
pub const OP_OR_16_RE_AL: u32 = 0x8179;
pub const OP_OR_32_ER_DN: u32 = 0x8080;
pub const OP_OR_32_ER_AI: u32 = 0x8090;
pub const OP_OR_32_ER_PI: u32 = 0x8098;
pub const OP_OR_32_ER_PD: u32 = 0x80a0;
pub const OP_OR_32_ER_DI: u32 = 0x80a8;
pub const OP_OR_32_ER_IX: u32 = 0x80b0;
pub const OP_OR_32_ER_AW: u32 = 0x80b8;
pub const OP_OR_32_ER_AL: u32 = 0x80b9;
pub const OP_OR_32_ER_PCDI: u32 = 0x80ba;
pub const OP_OR_32_ER_PCIX: u32 = 0x80bb;
pub const OP_OR_32_ER_IMM: u32 = 0x80bc;
pub const OP_OR_32_RE_AI: u32 = 0x8190;
pub const OP_OR_32_RE_PI: u32 = 0x8198;
pub const OP_OR_32_RE_PD: u32 = 0x81a0;
pub const OP_OR_32_RE_DI: u32 = 0x81a8;
pub const OP_OR_32_RE_IX: u32 = 0x81b0;
pub const OP_OR_32_RE_AW: u32 = 0x81b8;
pub const OP_OR_32_RE_AL: u32 = 0x81b9;
pub const OP_ORI_8_DN: u32 = 0x0000;
pub const OP_ORI_8_AI: u32 = 0x0010;
pub const OP_ORI_8_PI: u32 = 0x0018;
pub const OP_ORI_8_PD: u32 = 0x0020;
pub const OP_ORI_8_DI: u32 = 0x0028;
pub const OP_ORI_8_IX: u32 = 0x0030;
pub const OP_ORI_8_AW: u32 = 0x0038;
pub const OP_ORI_8_AL: u32 = 0x0039;
pub const OP_ORI_16_DN: u32 = 0x0040;
pub const OP_ORI_16_AI: u32 = 0x0050;
pub const OP_ORI_16_PI: u32 = 0x0058;
pub const OP_ORI_16_PD: u32 = 0x0060;
pub const OP_ORI_16_DI: u32 = 0x0068;
pub const OP_ORI_16_IX: u32 = 0x0070;
pub const OP_ORI_16_AW: u32 = 0x0078;
pub const OP_ORI_16_AL: u32 = 0x0079;
pub const OP_ORI_32_DN: u32 = 0x0080;
pub const OP_ORI_32_AI: u32 = 0x0090;
pub const OP_ORI_32_PI: u32 = 0x0098;
pub const OP_ORI_32_PD: u32 = 0x00a0;
pub const OP_ORI_32_DI: u32 = 0x00a8;
pub const OP_ORI_32_IX: u32 = 0x00b0;
pub const OP_ORI_32_AW: u32 = 0x00b8;
pub const OP_ORI_32_AL: u32 = 0x00b9;
pub const OP_SUB_8_ER_DN: u32 = 0x9000;
pub const OP_SUB_8_ER_AI: u32 = 0x9010;
pub const OP_SUB_8_ER_PI: u32 = 0x9018;
pub const OP_SUB_8_ER_PD: u32 = 0x9020;
pub const OP_SUB_8_ER_DI: u32 = 0x9028;
pub const OP_SUB_8_ER_IX: u32 = 0x9030;
pub const OP_SUB_8_ER_AW: u32 = 0x9038;
pub const OP_SUB_8_ER_AL: u32 = 0x9039;
pub const OP_SUB_8_ER_PCDI: u32 = 0x903a;
pub const OP_SUB_8_ER_PCIX: u32 = 0x903b;
pub const OP_SUB_8_ER_IMM: u32 = 0x903c;
pub const OP_SUB_8_RE_AI: u32 = 0x9110;
pub const OP_SUB_8_RE_PI: u32 = 0x9118;
pub const OP_SUB_8_RE_PD: u32 = 0x9120;
pub const OP_SUB_8_RE_DI: u32 = 0x9128;
pub const OP_SUB_8_RE_IX: u32 = 0x9130;
pub const OP_SUB_8_RE_AW: u32 = 0x9138;
pub const OP_SUB_8_RE_AL: u32 = 0x9139;
pub const OP_SUB_16_ER_DN: u32 = 0x9040;
pub const OP_SUB_16_ER_AN: u32 = 0x9048;
pub const OP_SUB_16_ER_AI: u32 = 0x9050;
pub const OP_SUB_16_ER_PI: u32 = 0x9058;
pub const OP_SUB_16_ER_PD: u32 = 0x9060;
pub const OP_SUB_16_ER_DI: u32 = 0x9068;
pub const OP_SUB_16_ER_IX: u32 = 0x9070;
pub const OP_SUB_16_ER_AW: u32 = 0x9078;
pub const OP_SUB_16_ER_AL: u32 = 0x9079;
pub const OP_SUB_16_ER_PCDI: u32 = 0x907a;
pub const OP_SUB_16_ER_PCIX: u32 = 0x907b;
pub const OP_SUB_16_ER_IMM: u32 = 0x907c;
pub const OP_SUB_16_RE_AI: u32 = 0x9150;
pub const OP_SUB_16_RE_PI: u32 = 0x9158;
pub const OP_SUB_16_RE_PD: u32 = 0x9160;
pub const OP_SUB_16_RE_DI: u32 = 0x9168;
pub const OP_SUB_16_RE_IX: u32 = 0x9170;
pub const OP_SUB_16_RE_AW: u32 = 0x9178;
pub const OP_SUB_16_RE_AL: u32 = 0x9179;
pub const OP_SUB_32_ER_DN: u32 = 0x9080;
pub const OP_SUB_32_ER_AN: u32 = 0x9088;
pub const OP_SUB_32_ER_AI: u32 = 0x9090;
pub const OP_SUB_32_ER_PI: u32 = 0x9098;
pub const OP_SUB_32_ER_PD: u32 = 0x90a0;
pub const OP_SUB_32_ER_DI: u32 = 0x90a8;
pub const OP_SUB_32_ER_IX: u32 = 0x90b0;
pub const OP_SUB_32_ER_AW: u32 = 0x90b8;
pub const OP_SUB_32_ER_AL: u32 = 0x90b9;
pub const OP_SUB_32_ER_PCDI: u32 = 0x90ba;
pub const OP_SUB_32_ER_PCIX: u32 = 0x90bb;
pub const OP_SUB_32_ER_IMM: u32 = 0x90bc;
pub const OP_SUB_32_RE_AI: u32 = 0x9190;
pub const OP_SUB_32_RE_PI: u32 = 0x9198;
pub const OP_SUB_32_RE_PD: u32 = 0x91a0;
pub const OP_SUB_32_RE_DI: u32 = 0x91a8;
pub const OP_SUB_32_RE_IX: u32 = 0x91b0;
pub const OP_SUB_32_RE_AW: u32 = 0x91b8;
pub const OP_SUB_32_RE_AL: u32 = 0x91b9;
pub const OP_SUBI_8_DN: u32 = 0x0400;
pub const OP_SUBI_8_AI: u32 = 0x0410;
pub const OP_SUBI_8_PI: u32 = 0x0418;
pub const OP_SUBI_8_PD: u32 = 0x0420;
pub const OP_SUBI_8_DI: u32 = 0x0428;
pub const OP_SUBI_8_IX: u32 = 0x0430;
pub const OP_SUBI_8_AW: u32 = 0x0438;
pub const OP_SUBI_8_AL: u32 = 0x0439;
pub const OP_SUBI_16_DN: u32 = 0x0440;
pub const OP_SUBI_16_AI: u32 = 0x0450;
pub const OP_SUBI_16_PI: u32 = 0x0458;
pub const OP_SUBI_16_PD: u32 = 0x0460;
pub const OP_SUBI_16_DI: u32 = 0x0468;
pub const OP_SUBI_16_IX: u32 = 0x0470;
pub const OP_SUBI_16_AW: u32 = 0x0478;
pub const OP_SUBI_16_AL: u32 = 0x0479;
pub const OP_SUBI_32_DN: u32 = 0x0480;
pub const OP_SUBI_32_AI: u32 = 0x0490;
pub const OP_SUBI_32_PI: u32 = 0x0498;
pub const OP_SUBI_32_PD: u32 = 0x04a0;
pub const OP_SUBI_32_DI: u32 = 0x04a8;
pub const OP_SUBI_32_IX: u32 = 0x04b0;
pub const OP_SUBI_32_AW: u32 = 0x04b8;
pub const OP_SUBI_32_AL: u32 = 0x04b9;
pub const OP_SUBQ_8_DN: u32 = 0x5100;
pub const OP_SUBQ_8_AI: u32 = 0x5110;
pub const OP_SUBQ_8_PI: u32 = 0x5118;
pub const OP_SUBQ_8_PD: u32 = 0x5120;
pub const OP_SUBQ_8_DI: u32 = 0x5128;
pub const OP_SUBQ_8_IX: u32 = 0x5130;
pub const OP_SUBQ_8_AW: u32 = 0x5138;
pub const OP_SUBQ_8_AL: u32 = 0x5139;
pub const OP_SUBQ_16_DN: u32 = 0x5140;
pub const OP_SUBQ_16_AI: u32 = 0x5150;
pub const OP_SUBQ_16_PI: u32 = 0x5158;
pub const OP_SUBQ_16_PD: u32 = 0x5160;
pub const OP_SUBQ_16_DI: u32 = 0x5168;
pub const OP_SUBQ_16_IX: u32 = 0x5170;
pub const OP_SUBQ_16_AW: u32 = 0x5178;
pub const OP_SUBQ_16_AL: u32 = 0x5179;
pub const OP_SUBQ_32_DN: u32 = 0x5180;
pub const OP_SUBQ_32_AI: u32 = 0x5190;
pub const OP_SUBQ_32_PI: u32 = 0x5198;
pub const OP_SUBQ_32_PD: u32 = 0x51a0;
pub const OP_SUBQ_32_DI: u32 = 0x51a8;
pub const OP_SUBQ_32_IX: u32 = 0x51b0;
pub const OP_SUBQ_32_AW: u32 = 0x51b8;
pub const OP_SUBQ_32_AL: u32 = 0x51b9;
pub const OP_ABCD_8_RR: u32 = 0xc100;
pub const OP_ABCD_8_MM: u32 = 0xc108;
pub const OP_ADDX_8_RR: u32 = 0xd100;
pub const OP_ADDX_8_MM: u32 = 0xd108;
pub const OP_ADDX_16_RR: u32 = 0xd140;
pub const OP_ADDX_16_MM: u32 = 0xd148;
pub const OP_ADDX_32_RR: u32 = 0xd180;
pub const OP_ADDX_32_MM: u32 = 0xd188;
pub const OP_CMP_8_DN: u32 = 0xb000;
pub const OP_CMP_8_AI: u32 = 0xb010;
pub const OP_CMP_8_PI: u32 = 0xb018;
pub const OP_CMP_8_PD: u32 = 0xb020;
pub const OP_CMP_8_DI: u32 = 0xb028;
pub const OP_CMP_8_IX: u32 = 0xb030;
pub const OP_CMP_8_AW: u32 = 0xb038;
pub const OP_CMP_8_AL: u32 = 0xb039;
pub const OP_CMP_8_PCDI: u32 = 0xb03a;
pub const OP_CMP_8_PCIX: u32 = 0xb03b;
pub const OP_CMP_8_IMM: u32 = 0xb03c;
pub const OP_CMP_16_DN: u32 = 0xb040;
pub const OP_CMP_16_AN: u32 = 0xb048;
pub const OP_CMP_16_AI: u32 = 0xb050;
pub const OP_CMP_16_PI: u32 = 0xb058;
pub const OP_CMP_16_PD: u32 = 0xb060;
pub const OP_CMP_16_DI: u32 = 0xb068;
pub const OP_CMP_16_IX: u32 = 0xb070;
pub const OP_CMP_16_AW: u32 = 0xb078;
pub const OP_CMP_16_AL: u32 = 0xb079;
pub const OP_CMP_16_PCDI: u32 = 0xb07a;
pub const OP_CMP_16_PCIX: u32 = 0xb07b;
pub const OP_CMP_16_IMM: u32 = 0xb07c;
pub const OP_CMP_32_DN: u32 = 0xb080;
pub const OP_CMP_32_AN: u32 = 0xb088;
pub const OP_CMP_32_AI: u32 = 0xb090;
pub const OP_CMP_32_PI: u32 = 0xb098;
pub const OP_CMP_32_PD: u32 = 0xb0a0;
pub const OP_CMP_32_DI: u32 = 0xb0a8;
pub const OP_CMP_32_IX: u32 = 0xb0b0;
pub const OP_CMP_32_AW: u32 = 0xb0b8;
pub const OP_CMP_32_AL: u32 = 0xb0b9;
pub const OP_CMP_32_PCDI: u32 = 0xb0ba;
pub const OP_CMP_32_PCIX: u32 = 0xb0bb;
pub const OP_CMP_32_IMM: u32 = 0xb0bc;
pub const OP_CMPM_8: u32 = 0xb108;
pub const OP_CMPM_16: u32 = 0xb148;
pub const OP_CMPM_32: u32 = 0xb188;
pub const OP_SBCD_8_RR: u32 = 0x8100;
pub const OP_SBCD_8_MM: u32 = 0x8108;
pub const OP_SUBX_8_RR: u32 = 0x9100;
pub const OP_SUBX_8_MM: u32 = 0x9108;
pub const OP_SUBX_16_RR: u32 = 0x9140;
pub const OP_SUBX_16_MM: u32 = 0x9148;
pub const OP_SUBX_32_RR: u32 = 0x9180;
pub const OP_SUBX_32_MM: u32 = 0x9188;
pub const OP_UNIMPLEMENTED_1010: u32 = 0xa000;
pub const OP_UNIMPLEMENTED_1111: u32 = 0xf000;
pub const OP_MOVE_8_DN_DN: u32 = 0x1000;
pub const OP_MOVE_8_AI_DN: u32 = 0x1080;
pub const OP_MOVE_8_PI_DN: u32 = 0x10c0;
pub const OP_MOVE_8_PD_DN: u32 = 0x1100;
pub const OP_MOVE_8_DI_DN: u32 = 0x1140;
pub const OP_MOVE_8_IX_DN: u32 = 0x1180;
pub const OP_MOVE_8_AW_DN: u32 = 0x11c0;
pub const OP_MOVE_8_AL_DN: u32 = 0x13c0;
pub const OP_MOVE_8_DN_AI: u32 = 0x1010;
pub const OP_MOVE_8_AI_AI: u32 = 0x1090;
pub const OP_MOVE_8_PI_AI: u32 = 0x10d0;
pub const OP_MOVE_8_PD_AI: u32 = 0x1110;
pub const OP_MOVE_8_DI_AI: u32 = 0x1150;
pub const OP_MOVE_8_IX_AI: u32 = 0x1190;
pub const OP_MOVE_8_AW_AI: u32 = 0x11d0;
pub const OP_MOVE_8_AL_AI: u32 = 0x13d0;
pub const OP_MOVE_8_DN_PI: u32 = 0x1018;
pub const OP_MOVE_8_AI_PI: u32 = 0x1098;
pub const OP_MOVE_8_PI_PI: u32 = 0x10d8;
pub const OP_MOVE_8_PD_PI: u32 = 0x1118;
pub const OP_MOVE_8_DI_PI: u32 = 0x1158;
pub const OP_MOVE_8_IX_PI: u32 = 0x1198;
pub const OP_MOVE_8_AW_PI: u32 = 0x11d8;
pub const OP_MOVE_8_AL_PI: u32 = 0x13d8;
pub const OP_MOVE_8_DN_PD: u32 = 0x1020;
pub const OP_MOVE_8_AI_PD: u32 = 0x10a0;
pub const OP_MOVE_8_PI_PD: u32 = 0x10e0;
pub const OP_MOVE_8_PD_PD: u32 = 0x1120;
pub const OP_MOVE_8_DI_PD: u32 = 0x1160;
pub const OP_MOVE_8_IX_PD: u32 = 0x11a0;
pub const OP_MOVE_8_AW_PD: u32 = 0x11e0;
pub const OP_MOVE_8_AL_PD: u32 = 0x13e0;
pub const OP_MOVE_8_DN_DI: u32 = 0x1028;
pub const OP_MOVE_8_AI_DI: u32 = 0x10a8;
pub const OP_MOVE_8_PI_DI: u32 = 0x10e8;
pub const OP_MOVE_8_PD_DI: u32 = 0x1128;
pub const OP_MOVE_8_DI_DI: u32 = 0x1168;
pub const OP_MOVE_8_IX_DI: u32 = 0x11a8;
pub const OP_MOVE_8_AW_DI: u32 = 0x11e8;
pub const OP_MOVE_8_AL_DI: u32 = 0x13e8;
pub const OP_MOVE_8_DN_IX: u32 = 0x1030;
pub const OP_MOVE_8_AI_IX: u32 = 0x10b0;
pub const OP_MOVE_8_PI_IX: u32 = 0x10f0;
pub const OP_MOVE_8_PD_IX: u32 = 0x1130;
pub const OP_MOVE_8_DI_IX: u32 = 0x1170;
pub const OP_MOVE_8_IX_IX: u32 = 0x11b0;
pub const OP_MOVE_8_AW_IX: u32 = 0x11f0;
pub const OP_MOVE_8_AL_IX: u32 = 0x13f0;
pub const OP_MOVE_8_DN_AW: u32 = 0x1038;
pub const OP_MOVE_8_AI_AW: u32 = 0x10b8;
pub const OP_MOVE_8_PI_AW: u32 = 0x10f8;
pub const OP_MOVE_8_PD_AW: u32 = 0x1138;
pub const OP_MOVE_8_DI_AW: u32 = 0x1178;
pub const OP_MOVE_8_IX_AW: u32 = 0x11b8;
pub const OP_MOVE_8_AW_AW: u32 = 0x11f8;
pub const OP_MOVE_8_AL_AW: u32 = 0x13f8;
pub const OP_MOVE_8_DN_AL: u32 = 0x1039;
pub const OP_MOVE_8_AI_AL: u32 = 0x10b9;
pub const OP_MOVE_8_PI_AL: u32 = 0x10f9;
pub const OP_MOVE_8_PD_AL: u32 = 0x1139;
pub const OP_MOVE_8_DI_AL: u32 = 0x1179;
pub const OP_MOVE_8_IX_AL: u32 = 0x11b9;
pub const OP_MOVE_8_AW_AL: u32 = 0x11f9;
pub const OP_MOVE_8_AL_AL: u32 = 0x13f9;
pub const OP_MOVE_8_DN_PCDI: u32 = 0x103a;
pub const OP_MOVE_8_AI_PCDI: u32 = 0x10ba;
pub const OP_MOVE_8_PI_PCDI: u32 = 0x10fa;
pub const OP_MOVE_8_PD_PCDI: u32 = 0x113a;
pub const OP_MOVE_8_DI_PCDI: u32 = 0x117a;
pub const OP_MOVE_8_IX_PCDI: u32 = 0x11ba;
pub const OP_MOVE_8_AW_PCDI: u32 = 0x11fa;
pub const OP_MOVE_8_AL_PCDI: u32 = 0x13fa;
pub const OP_MOVE_8_DN_PCIX: u32 = 0x103b;
pub const OP_MOVE_8_AI_PCIX: u32 = 0x10bb;
pub const OP_MOVE_8_PI_PCIX: u32 = 0x10fb;
pub const OP_MOVE_8_PD_PCIX: u32 = 0x113b;
pub const OP_MOVE_8_DI_PCIX: u32 = 0x117b;
pub const OP_MOVE_8_IX_PCIX: u32 = 0x11bb;
pub const OP_MOVE_8_AW_PCIX: u32 = 0x11fb;
pub const OP_MOVE_8_AL_PCIX: u32 = 0x13fb;
pub const OP_MOVE_8_DN_IMM: u32 = 0x103c;
pub const OP_MOVE_8_AI_IMM: u32 = 0x10bc;
pub const OP_MOVE_8_PI_IMM: u32 = 0x10fc;
pub const OP_MOVE_8_PD_IMM: u32 = 0x113c;
pub const OP_MOVE_8_DI_IMM: u32 = 0x117c;
pub const OP_MOVE_8_IX_IMM: u32 = 0x11bc;
pub const OP_MOVE_8_AW_IMM: u32 = 0x11fc;
pub const OP_MOVE_8_AL_IMM: u32 = 0x13fc;
pub const OP_MOVE_16_DN_DN: u32 = 0x3000;
pub const OP_MOVE_16_AI_DN: u32 = 0x3080;
pub const OP_MOVE_16_PI_DN: u32 = 0x30c0;
pub const OP_MOVE_16_PD_DN: u32 = 0x3100;
pub const OP_MOVE_16_DI_DN: u32 = 0x3140;
pub const OP_MOVE_16_IX_DN: u32 = 0x3180;
pub const OP_MOVE_16_AW_DN: u32 = 0x31c0;
pub const OP_MOVE_16_AL_DN: u32 = 0x33c0;
pub const OP_MOVE_16_DN_AN: u32 = 0x3008;
pub const OP_MOVE_16_AI_AN: u32 = 0x3088;
pub const OP_MOVE_16_PI_AN: u32 = 0x30c8;
pub const OP_MOVE_16_PD_AN: u32 = 0x3108;
pub const OP_MOVE_16_DI_AN: u32 = 0x3148;
pub const OP_MOVE_16_IX_AN: u32 = 0x3188;
pub const OP_MOVE_16_AW_AN: u32 = 0x31c8;
pub const OP_MOVE_16_AL_AN: u32 = 0x33c8;
pub const OP_MOVE_16_DN_AI: u32 = 0x3010;
pub const OP_MOVE_16_AI_AI: u32 = 0x3090;
pub const OP_MOVE_16_PI_AI: u32 = 0x30d0;
pub const OP_MOVE_16_PD_AI: u32 = 0x3110;
pub const OP_MOVE_16_DI_AI: u32 = 0x3150;
pub const OP_MOVE_16_IX_AI: u32 = 0x3190;
pub const OP_MOVE_16_AW_AI: u32 = 0x31d0;
pub const OP_MOVE_16_AL_AI: u32 = 0x33d0;
pub const OP_MOVE_16_DN_PI: u32 = 0x3018;
pub const OP_MOVE_16_AI_PI: u32 = 0x3098;
pub const OP_MOVE_16_PI_PI: u32 = 0x30d8;
pub const OP_MOVE_16_PD_PI: u32 = 0x3118;
pub const OP_MOVE_16_DI_PI: u32 = 0x3158;
pub const OP_MOVE_16_IX_PI: u32 = 0x3198;
pub const OP_MOVE_16_AW_PI: u32 = 0x31d8;
pub const OP_MOVE_16_AL_PI: u32 = 0x33d8;
pub const OP_MOVE_16_DN_PD: u32 = 0x3020;
pub const OP_MOVE_16_AI_PD: u32 = 0x30a0;
pub const OP_MOVE_16_PI_PD: u32 = 0x30e0;
pub const OP_MOVE_16_PD_PD: u32 = 0x3120;
pub const OP_MOVE_16_DI_PD: u32 = 0x3160;
pub const OP_MOVE_16_IX_PD: u32 = 0x31a0;
pub const OP_MOVE_16_AW_PD: u32 = 0x31e0;
pub const OP_MOVE_16_AL_PD: u32 = 0x33e0;
pub const OP_MOVE_16_DN_DI: u32 = 0x3028;
pub const OP_MOVE_16_AI_DI: u32 = 0x30a8;
pub const OP_MOVE_16_PI_DI: u32 = 0x30e8;
pub const OP_MOVE_16_PD_DI: u32 = 0x3128;
pub const OP_MOVE_16_DI_DI: u32 = 0x3168;
pub const OP_MOVE_16_IX_DI: u32 = 0x31a8;
pub const OP_MOVE_16_AW_DI: u32 = 0x31e8;
pub const OP_MOVE_16_AL_DI: u32 = 0x33e8;
pub const OP_MOVE_16_DN_IX: u32 = 0x3030;
pub const OP_MOVE_16_AI_IX: u32 = 0x30b0;
pub const OP_MOVE_16_PI_IX: u32 = 0x30f0;
pub const OP_MOVE_16_PD_IX: u32 = 0x3130;
pub const OP_MOVE_16_DI_IX: u32 = 0x3170;
pub const OP_MOVE_16_IX_IX: u32 = 0x31b0;
pub const OP_MOVE_16_AW_IX: u32 = 0x31f0;
pub const OP_MOVE_16_AL_IX: u32 = 0x33f0;
pub const OP_MOVE_16_DN_AW: u32 = 0x3038;
pub const OP_MOVE_16_AI_AW: u32 = 0x30b8;
pub const OP_MOVE_16_PI_AW: u32 = 0x30f8;
pub const OP_MOVE_16_PD_AW: u32 = 0x3138;
pub const OP_MOVE_16_DI_AW: u32 = 0x3178;
pub const OP_MOVE_16_IX_AW: u32 = 0x31b8;
pub const OP_MOVE_16_AW_AW: u32 = 0x31f8;
pub const OP_MOVE_16_AL_AW: u32 = 0x33f8;
pub const OP_MOVE_16_DN_AL: u32 = 0x3039;
pub const OP_MOVE_16_AI_AL: u32 = 0x30b9;
pub const OP_MOVE_16_PI_AL: u32 = 0x30f9;
pub const OP_MOVE_16_PD_AL: u32 = 0x3139;
pub const OP_MOVE_16_DI_AL: u32 = 0x3179;
pub const OP_MOVE_16_IX_AL: u32 = 0x31b9;
pub const OP_MOVE_16_AW_AL: u32 = 0x31f9;
pub const OP_MOVE_16_AL_AL: u32 = 0x33f9;
pub const OP_MOVE_16_DN_PCDI: u32 = 0x303a;
pub const OP_MOVE_16_AI_PCDI: u32 = 0x30ba;
pub const OP_MOVE_16_PI_PCDI: u32 = 0x30fa;
pub const OP_MOVE_16_PD_PCDI: u32 = 0x313a;
pub const OP_MOVE_16_DI_PCDI: u32 = 0x317a;
pub const OP_MOVE_16_IX_PCDI: u32 = 0x31ba;
pub const OP_MOVE_16_AW_PCDI: u32 = 0x31fa;
pub const OP_MOVE_16_AL_PCDI: u32 = 0x33fa;
pub const OP_MOVE_16_DN_PCIX: u32 = 0x303b;
pub const OP_MOVE_16_AI_PCIX: u32 = 0x30bb;
pub const OP_MOVE_16_PI_PCIX: u32 = 0x30fb;
pub const OP_MOVE_16_PD_PCIX: u32 = 0x313b;
pub const OP_MOVE_16_DI_PCIX: u32 = 0x317b;
pub const OP_MOVE_16_IX_PCIX: u32 = 0x31bb;
pub const OP_MOVE_16_AW_PCIX: u32 = 0x31fb;
pub const OP_MOVE_16_AL_PCIX: u32 = 0x33fb;
pub const OP_MOVE_16_DN_IMM: u32 = 0x303c;
pub const OP_MOVE_16_AI_IMM: u32 = 0x30bc;
pub const OP_MOVE_16_PI_IMM: u32 = 0x30fc;
pub const OP_MOVE_16_PD_IMM: u32 = 0x313c;
pub const OP_MOVE_16_DI_IMM: u32 = 0x317c;
pub const OP_MOVE_16_IX_IMM: u32 = 0x31bc;
pub const OP_MOVE_16_AW_IMM: u32 = 0x31fc;
pub const OP_MOVE_16_AL_IMM: u32 = 0x33fc;
pub const OP_MOVE_32_DN_DN: u32 = 0x2000;
pub const OP_MOVE_32_AI_DN: u32 = 0x2080;
pub const OP_MOVE_32_PI_DN: u32 = 0x20c0;
pub const OP_MOVE_32_PD_DN: u32 = 0x2100;
pub const OP_MOVE_32_DI_DN: u32 = 0x2140;
pub const OP_MOVE_32_IX_DN: u32 = 0x2180;
pub const OP_MOVE_32_AW_DN: u32 = 0x21c0;
pub const OP_MOVE_32_AL_DN: u32 = 0x23c0;
pub const OP_MOVE_32_DN_AN: u32 = 0x2008;
pub const OP_MOVE_32_AI_AN: u32 = 0x2088;
pub const OP_MOVE_32_PI_AN: u32 = 0x20c8;
pub const OP_MOVE_32_PD_AN: u32 = 0x2108;
pub const OP_MOVE_32_DI_AN: u32 = 0x2148;
pub const OP_MOVE_32_IX_AN: u32 = 0x2188;
pub const OP_MOVE_32_AW_AN: u32 = 0x21c8;
pub const OP_MOVE_32_AL_AN: u32 = 0x23c8;
pub const OP_MOVE_32_DN_AI: u32 = 0x2010;
pub const OP_MOVE_32_AI_AI: u32 = 0x2090;
pub const OP_MOVE_32_PI_AI: u32 = 0x20d0;
pub const OP_MOVE_32_PD_AI: u32 = 0x2110;
pub const OP_MOVE_32_DI_AI: u32 = 0x2150;
pub const OP_MOVE_32_IX_AI: u32 = 0x2190;
pub const OP_MOVE_32_AW_AI: u32 = 0x21d0;
pub const OP_MOVE_32_AL_AI: u32 = 0x23d0;
pub const OP_MOVE_32_DN_PI: u32 = 0x2018;
pub const OP_MOVE_32_AI_PI: u32 = 0x2098;
pub const OP_MOVE_32_PI_PI: u32 = 0x20d8;
pub const OP_MOVE_32_PD_PI: u32 = 0x2118;
pub const OP_MOVE_32_DI_PI: u32 = 0x2158;
pub const OP_MOVE_32_IX_PI: u32 = 0x2198;
pub const OP_MOVE_32_AW_PI: u32 = 0x21d8;
pub const OP_MOVE_32_AL_PI: u32 = 0x23d8;
pub const OP_MOVE_32_DN_PD: u32 = 0x2020;
pub const OP_MOVE_32_AI_PD: u32 = 0x20a0;
pub const OP_MOVE_32_PI_PD: u32 = 0x20e0;
pub const OP_MOVE_32_PD_PD: u32 = 0x2120;
pub const OP_MOVE_32_DI_PD: u32 = 0x2160;
pub const OP_MOVE_32_IX_PD: u32 = 0x21a0;
pub const OP_MOVE_32_AW_PD: u32 = 0x21e0;
pub const OP_MOVE_32_AL_PD: u32 = 0x23e0;
pub const OP_MOVE_32_DN_DI: u32 = 0x2028;
pub const OP_MOVE_32_AI_DI: u32 = 0x20a8;
pub const OP_MOVE_32_PI_DI: u32 = 0x20e8;
pub const OP_MOVE_32_PD_DI: u32 = 0x2128;
pub const OP_MOVE_32_DI_DI: u32 = 0x2168;
pub const OP_MOVE_32_IX_DI: u32 = 0x21a8;
pub const OP_MOVE_32_AW_DI: u32 = 0x21e8;
pub const OP_MOVE_32_AL_DI: u32 = 0x23e8;
pub const OP_MOVE_32_DN_IX: u32 = 0x2030;
pub const OP_MOVE_32_AI_IX: u32 = 0x20b0;
pub const OP_MOVE_32_PI_IX: u32 = 0x20f0;
pub const OP_MOVE_32_PD_IX: u32 = 0x2130;
pub const OP_MOVE_32_DI_IX: u32 = 0x2170;
pub const OP_MOVE_32_IX_IX: u32 = 0x21b0;
pub const OP_MOVE_32_AW_IX: u32 = 0x21f0;
pub const OP_MOVE_32_AL_IX: u32 = 0x23f0;
pub const OP_MOVE_32_DN_AW: u32 = 0x2038;
pub const OP_MOVE_32_AI_AW: u32 = 0x20b8;
pub const OP_MOVE_32_PI_AW: u32 = 0x20f8;
pub const OP_MOVE_32_PD_AW: u32 = 0x2138;
pub const OP_MOVE_32_DI_AW: u32 = 0x2178;
pub const OP_MOVE_32_IX_AW: u32 = 0x21b8;
pub const OP_MOVE_32_AW_AW: u32 = 0x21f8;
pub const OP_MOVE_32_AL_AW: u32 = 0x23f8;
pub const OP_MOVE_32_DN_AL: u32 = 0x2039;
pub const OP_MOVE_32_AI_AL: u32 = 0x20b9;
pub const OP_MOVE_32_PI_AL: u32 = 0x20f9;
pub const OP_MOVE_32_PD_AL: u32 = 0x2139;
pub const OP_MOVE_32_DI_AL: u32 = 0x2179;
pub const OP_MOVE_32_IX_AL: u32 = 0x21b9;
pub const OP_MOVE_32_AW_AL: u32 = 0x21f9;
pub const OP_MOVE_32_AL_AL: u32 = 0x23f9;
pub const OP_MOVE_32_DN_PCDI: u32 = 0x203a;
pub const OP_MOVE_32_AI_PCDI: u32 = 0x20ba;
pub const OP_MOVE_32_PI_PCDI: u32 = 0x20fa;
pub const OP_MOVE_32_PD_PCDI: u32 = 0x213a;
pub const OP_MOVE_32_DI_PCDI: u32 = 0x217a;
pub const OP_MOVE_32_IX_PCDI: u32 = 0x21ba;
pub const OP_MOVE_32_AW_PCDI: u32 = 0x21fa;
pub const OP_MOVE_32_AL_PCDI: u32 = 0x23fa;
pub const OP_MOVE_32_DN_PCIX: u32 = 0x203b;
pub const OP_MOVE_32_AI_PCIX: u32 = 0x20bb;
pub const OP_MOVE_32_PI_PCIX: u32 = 0x20fb;
pub const OP_MOVE_32_PD_PCIX: u32 = 0x213b;
pub const OP_MOVE_32_DI_PCIX: u32 = 0x217b;
pub const OP_MOVE_32_IX_PCIX: u32 = 0x21bb;
pub const OP_MOVE_32_AW_PCIX: u32 = 0x21fb;
pub const OP_MOVE_32_AL_PCIX: u32 = 0x23fb;
pub const OP_MOVE_32_DN_IMM: u32 = 0x203c;
pub const OP_MOVE_32_AI_IMM: u32 = 0x20bc;
pub const OP_MOVE_32_PI_IMM: u32 = 0x20fc;
pub const OP_MOVE_32_PD_IMM: u32 = 0x213c;
pub const OP_MOVE_32_DI_IMM: u32 = 0x217c;
pub const OP_MOVE_32_IX_IMM: u32 = 0x21bc;
pub const OP_MOVE_32_AW_IMM: u32 = 0x21fc;
pub const OP_MOVE_32_AL_IMM: u32 = 0x23fc;
pub const OP_MOVEA_16_DN: u32 = 0x3040;
pub const OP_MOVEA_16_AN: u32 = 0x3048;
pub const OP_MOVEA_16_AI: u32 = 0x3050;
pub const OP_MOVEA_16_PI: u32 = 0x3058;
pub const OP_MOVEA_16_PD: u32 = 0x3060;
pub const OP_MOVEA_16_DI: u32 = 0x3068;
pub const OP_MOVEA_16_IX: u32 = 0x3070;
pub const OP_MOVEA_16_AW: u32 = 0x3078;
pub const OP_MOVEA_16_AL: u32 = 0x3079;
pub const OP_MOVEA_16_PCDI: u32 = 0x307a;
pub const OP_MOVEA_16_PCIX: u32 = 0x307b;
pub const OP_MOVEA_16_IMM: u32 = 0x307c;
pub const OP_MOVEA_32_DN: u32 = 0x2040;
pub const OP_MOVEA_32_AN: u32 = 0x2048;
pub const OP_MOVEA_32_AI: u32 = 0x2050;
pub const OP_MOVEA_32_PI: u32 = 0x2058;
pub const OP_MOVEA_32_PD: u32 = 0x2060;
pub const OP_MOVEA_32_DI: u32 = 0x2068;
pub const OP_MOVEA_32_IX: u32 = 0x2070;
pub const OP_MOVEA_32_AW: u32 = 0x2078;
pub const OP_MOVEA_32_AL: u32 = 0x2079;
pub const OP_MOVEA_32_PCDI: u32 = 0x207a;
pub const OP_MOVEA_32_PCIX: u32 = 0x207b;
pub const OP_MOVEA_32_IMM: u32 = 0x207c;
pub const OP_BHI_16: u32 = 0x6200;
pub const OP_BLS_16: u32 = 0x6300;
pub const OP_BCC_16: u32 = 0x6400;
pub const OP_BCS_16: u32 = 0x6500;
pub const OP_BNE_16: u32 = 0x6600;
pub const OP_BEQ_16: u32 = 0x6700;
pub const OP_BVC_16: u32 = 0x6800;
pub const OP_BVS_16: u32 = 0x6900;
pub const OP_BPL_16: u32 = 0x6a00;
pub const OP_BMI_16: u32 = 0x6b00;
pub const OP_BGE_16: u32 = 0x6c00;
pub const OP_BLT_16: u32 = 0x6d00;
pub const OP_BGT_16: u32 = 0x6e00;
pub const OP_BLE_16: u32 = 0x6f00;
pub const OP_BHI_8: u32 = 0x6200;
pub const OP_BLS_8: u32 = 0x6300;
pub const OP_BCC_8: u32 = 0x6400;
pub const OP_BCS_8: u32 = 0x6500;
pub const OP_BNE_8: u32 = 0x6600;
pub const OP_BEQ_8: u32 = 0x6700;
pub const OP_BVC_8: u32 = 0x6800;
pub const OP_BVS_8: u32 = 0x6900;
pub const OP_BPL_8: u32 = 0x6a00;
pub const OP_BMI_8: u32 = 0x6b00;
pub const OP_BGE_8: u32 = 0x6c00;
pub const OP_BLT_8: u32 = 0x6d00;
pub const OP_BGT_8: u32 = 0x6e00;
pub const OP_BLE_8: u32 = 0x6f00;
pub const OP_DBT_16: u32 = 0x50c8;
pub const OP_DBF_16: u32 = 0x51c8;
pub const OP_DBHI_16: u32 = 0x52c8;
pub const OP_DBLS_16: u32 = 0x53c8;
pub const OP_DBCC_16: u32 = 0x54c8;
pub const OP_DBCS_16: u32 = 0x55c8;
pub const OP_DBNE_16: u32 = 0x56c8;
pub const OP_DBEQ_16: u32 = 0x57c8;
pub const OP_DBVC_16: u32 = 0x58c8;
pub const OP_DBVS_16: u32 = 0x59c8;
pub const OP_DBPL_16: u32 = 0x5ac8;
pub const OP_DBMI_16: u32 = 0x5bc8;
pub const OP_DBGE_16: u32 = 0x5cc8;
pub const OP_DBLT_16: u32 = 0x5dc8;
pub const OP_DBGT_16: u32 = 0x5ec8;
pub const OP_DBLE_16: u32 = 0x5fc8;
pub const OP_JMP_32_AI: u32 = 0x4ed0;
pub const OP_JMP_32_DI: u32 = 0x4ee8;
pub const OP_JMP_32_IX: u32 = 0x4ef0;
pub const OP_JMP_32_AW: u32 = 0x4ef8;
pub const OP_JMP_32_AL: u32 = 0x4ef9;
pub const OP_JMP_32_PCDI: u32 = 0x4efa;
pub const OP_JMP_32_PCIX: u32 = 0x4efb;
pub const OP_JSR_32_AI: u32 = 0x4e90;
pub const OP_JSR_32_DI: u32 = 0x4ea8;
pub const OP_JSR_32_IX: u32 = 0x4eb0;
pub const OP_JSR_32_AW: u32 = 0x4eb8;
pub const OP_JSR_32_AL: u32 = 0x4eb9;
pub const OP_JSR_32_PCDI: u32 = 0x4eba;
pub const OP_JSR_32_PCIX: u32 = 0x4ebb;
pub const OP_LEA_32_AI: u32 = 0x41d0;
pub const OP_LEA_32_DI: u32 = 0x41e8;
pub const OP_LEA_32_IX: u32 = 0x41f0;
pub const OP_LEA_32_AW: u32 = 0x41f8;
pub const OP_LEA_32_AL: u32 = 0x41f9;
pub const OP_LEA_32_PCDI: u32 = 0x41fa;
pub const OP_LEA_32_PCIX: u32 = 0x41fb;
pub const OP_PEA_32_AI: u32 = 0x4850;
pub const OP_PEA_32_DI: u32 = 0x4868;
pub const OP_PEA_32_IX: u32 = 0x4870;
pub const OP_PEA_32_AW: u32 = 0x4878;
pub const OP_PEA_32_AL: u32 = 0x4879;
pub const OP_PEA_32_PCDI: u32 = 0x487a;
pub const OP_PEA_32_PCIX: u32 = 0x487b;
pub const OP_SCC_8_DN: u32 = 0x54c0;
pub const OP_SCC_8_AI: u32 = 0x54d0;
pub const OP_SCC_8_AL: u32 = 0x54f9;
pub const OP_SCC_8_AW: u32 = 0x54f8;
pub const OP_SCC_8_DI: u32 = 0x54e8;
pub const OP_SCC_8_IX: u32 = 0x54f0;
pub const OP_SCC_8_PD: u32 = 0x54e0;
pub const OP_SCC_8_PI: u32 = 0x54d8;
pub const OP_SCS_8_DN: u32 = 0x55c0;
pub const OP_SCS_8_AI: u32 = 0x55d0;
pub const OP_SCS_8_AL: u32 = 0x55f9;
pub const OP_SCS_8_AW: u32 = 0x55f8;
pub const OP_SCS_8_DI: u32 = 0x55e8;
pub const OP_SCS_8_IX: u32 = 0x55f0;
pub const OP_SCS_8_PD: u32 = 0x55e0;
pub const OP_SCS_8_PI: u32 = 0x55d8;
pub const OP_SEQ_8_DN: u32 = 0x57c0;
pub const OP_SEQ_8_AI: u32 = 0x57d0;
pub const OP_SEQ_8_AL: u32 = 0x57f9;
pub const OP_SEQ_8_AW: u32 = 0x57f8;
pub const OP_SEQ_8_DI: u32 = 0x57e8;
pub const OP_SEQ_8_IX: u32 = 0x57f0;
pub const OP_SEQ_8_PD: u32 = 0x57e0;
pub const OP_SEQ_8_PI: u32 = 0x57d8;
pub const OP_SF_8_DN: u32 = 0x51c0;
pub const OP_SF_8_AI: u32 = 0x51d0;
pub const OP_SF_8_AL: u32 = 0x51f9;
pub const OP_SF_8_AW: u32 = 0x51f8;
pub const OP_SF_8_DI: u32 = 0x51e8;
pub const OP_SF_8_IX: u32 = 0x51f0;
pub const OP_SF_8_PD: u32 = 0x51e0;
pub const OP_SF_8_PI: u32 = 0x51d8;
pub const OP_SGE_8_DN: u32 = 0x5cc0;
pub const OP_SGE_8_AI: u32 = 0x5cd0;
pub const OP_SGE_8_AL: u32 = 0x5cf9;
pub const OP_SGE_8_AW: u32 = 0x5cf8;
pub const OP_SGE_8_DI: u32 = 0x5ce8;
pub const OP_SGE_8_IX: u32 = 0x5cf0;
pub const OP_SGE_8_PD: u32 = 0x5ce0;
pub const OP_SGE_8_PI: u32 = 0x5cd8;
pub const OP_SGT_8_DN: u32 = 0x5ec0;
pub const OP_SGT_8_AI: u32 = 0x5ed0;
pub const OP_SGT_8_AL: u32 = 0x5ef9;
pub const OP_SGT_8_AW: u32 = 0x5ef8;
pub const OP_SGT_8_DI: u32 = 0x5ee8;
pub const OP_SGT_8_IX: u32 = 0x5ef0;
pub const OP_SGT_8_PD: u32 = 0x5ee0;
pub const OP_SGT_8_PI: u32 = 0x5ed8;
pub const OP_SHI_8_DN: u32 = 0x52c0;
pub const OP_SHI_8_AI: u32 = 0x52d0;
pub const OP_SHI_8_AL: u32 = 0x52f9;
pub const OP_SHI_8_AW: u32 = 0x52f8;
pub const OP_SHI_8_DI: u32 = 0x52e8;
pub const OP_SHI_8_IX: u32 = 0x52f0;
pub const OP_SHI_8_PD: u32 = 0x52e0;
pub const OP_SHI_8_PI: u32 = 0x52d8;
pub const OP_SLE_8_DN: u32 = 0x5fc0;
pub const OP_SLE_8_AI: u32 = 0x5fd0;
pub const OP_SLE_8_AL: u32 = 0x5ff9;
pub const OP_SLE_8_AW: u32 = 0x5ff8;
pub const OP_SLE_8_DI: u32 = 0x5fe8;
pub const OP_SLE_8_IX: u32 = 0x5ff0;
pub const OP_SLE_8_PD: u32 = 0x5fe0;
pub const OP_SLE_8_PI: u32 = 0x5fd8;
pub const OP_SLS_8_DN: u32 = 0x53c0;
pub const OP_SLS_8_AI: u32 = 0x53d0;
pub const OP_SLS_8_AL: u32 = 0x53f9;
pub const OP_SLS_8_AW: u32 = 0x53f8;
pub const OP_SLS_8_DI: u32 = 0x53e8;
pub const OP_SLS_8_IX: u32 = 0x53f0;
pub const OP_SLS_8_PD: u32 = 0x53e0;
pub const OP_SLS_8_PI: u32 = 0x53d8;
pub const OP_SLT_8_DN: u32 = 0x5dc0;
pub const OP_SLT_8_AI: u32 = 0x5dd0;
pub const OP_SLT_8_AL: u32 = 0x5df9;
pub const OP_SLT_8_AW: u32 = 0x5df8;
pub const OP_SLT_8_DI: u32 = 0x5de8;
pub const OP_SLT_8_IX: u32 = 0x5df0;
pub const OP_SLT_8_PD: u32 = 0x5de0;
pub const OP_SLT_8_PI: u32 = 0x5dd8;
pub const OP_SMI_8_DN: u32 = 0x5bc0;
pub const OP_SMI_8_AI: u32 = 0x5bd0;
pub const OP_SMI_8_AL: u32 = 0x5bf9;
pub const OP_SMI_8_AW: u32 = 0x5bf8;
pub const OP_SMI_8_DI: u32 = 0x5be8;
pub const OP_SMI_8_IX: u32 = 0x5bf0;
pub const OP_SMI_8_PD: u32 = 0x5be0;
pub const OP_SMI_8_PI: u32 = 0x5bd8;
pub const OP_SNE_8_DN: u32 = 0x56c0;
pub const OP_SNE_8_AI: u32 = 0x56d0;
pub const OP_SNE_8_AL: u32 = 0x56f9;
pub const OP_SNE_8_AW: u32 = 0x56f8;
pub const OP_SNE_8_DI: u32 = 0x56e8;
pub const OP_SNE_8_IX: u32 = 0x56f0;
pub const OP_SNE_8_PD: u32 = 0x56e0;
pub const OP_SNE_8_PI: u32 = 0x56d8;
pub const OP_SPL_8_DN: u32 = 0x5ac0;
pub const OP_SPL_8_AI: u32 = 0x5ad0;
pub const OP_SPL_8_AL: u32 = 0x5af9;
pub const OP_SPL_8_AW: u32 = 0x5af8;
pub const OP_SPL_8_DI: u32 = 0x5ae8;
pub const OP_SPL_8_IX: u32 = 0x5af0;
pub const OP_SPL_8_PD: u32 = 0x5ae0;
pub const OP_SPL_8_PI: u32 = 0x5ad8;
pub const OP_ST_8_DN: u32 = 0x50c0;
pub const OP_ST_8_AI: u32 = 0x50d0;
pub const OP_ST_8_AL: u32 = 0x50f9;
pub const OP_ST_8_AW: u32 = 0x50f8;
pub const OP_ST_8_DI: u32 = 0x50e8;
pub const OP_ST_8_IX: u32 = 0x50f0;
pub const OP_ST_8_PD: u32 = 0x50e0;
pub const OP_ST_8_PI: u32 = 0x50d8;
pub const OP_SVC_8_DN: u32 = 0x58c0;
pub const OP_SVC_8_AI: u32 = 0x58d0;
pub const OP_SVC_8_AL: u32 = 0x58f9;
pub const OP_SVC_8_AW: u32 = 0x58f8;
pub const OP_SVC_8_DI: u32 = 0x58e8;
pub const OP_SVC_8_IX: u32 = 0x58f0;
pub const OP_SVC_8_PD: u32 = 0x58e0;
pub const OP_SVC_8_PI: u32 = 0x58d8;
pub const OP_SVS_8_DN: u32 = 0x59c0;
pub const OP_SVS_8_AI: u32 = 0x59d0;
pub const OP_SVS_8_AL: u32 = 0x59f9;
pub const OP_SVS_8_AW: u32 = 0x59f8;
pub const OP_SVS_8_DI: u32 = 0x59e8;
pub const OP_SVS_8_IX: u32 = 0x59f0;
pub const OP_SVS_8_PD: u32 = 0x59e0;
pub const OP_SVS_8_PI: u32 = 0x59d8;
pub const OP_CLR_8_AI: u32 = 0x4210;
pub const OP_CLR_8_PI: u32 = 0x4218;
pub const OP_CLR_8_PD: u32 = 0x4220;
pub const OP_CLR_8_DI: u32 = 0x4228;
pub const OP_CLR_8_IX: u32 = 0x4230;
pub const OP_CLR_8_AW: u32 = 0x4238;
pub const OP_CLR_8_AL: u32 = 0x4239;
pub const OP_CLR_16_AI: u32 = 0x4250;
pub const OP_CLR_16_PI: u32 = 0x4258;
pub const OP_CLR_16_PD: u32 = 0x4260;
pub const OP_CLR_16_DI: u32 = 0x4268;
pub const OP_CLR_16_IX: u32 = 0x4270;
pub const OP_CLR_16_AW: u32 = 0x4278;
pub const OP_CLR_16_AL: u32 = 0x4279;
pub const OP_CLR_32_AI: u32 = 0x4290;
pub const OP_CLR_32_PI: u32 = 0x4298;
pub const OP_CLR_32_PD: u32 = 0x42a0;
pub const OP_CLR_32_DI: u32 = 0x42a8;
pub const OP_CLR_32_IX: u32 = 0x42b0;
pub const OP_CLR_32_AW: u32 = 0x42b8;
pub const OP_CLR_32_AL: u32 = 0x42b9;
pub const OP_NBCD_8_DN: u32 = 0x4800;
pub const OP_NBCD_8_AI: u32 = 0x4810;
pub const OP_NBCD_8_PI: u32 = 0x4818;
pub const OP_NBCD_8_PD: u32 = 0x4820;
pub const OP_NBCD_8_DI: u32 = 0x4828;
pub const OP_NBCD_8_IX: u32 = 0x4830;
pub const OP_NBCD_8_AW: u32 = 0x4838;
pub const OP_NBCD_8_AL: u32 = 0x4839;
pub const OP_NEG_8_DN: u32 = 0x4400;
pub const OP_NEG_8_AI: u32 = 0x4410;
pub const OP_NEG_8_PI: u32 = 0x4418;
pub const OP_NEG_8_PD: u32 = 0x4420;
pub const OP_NEG_8_DI: u32 = 0x4428;
pub const OP_NEG_8_IX: u32 = 0x4430;
pub const OP_NEG_8_AW: u32 = 0x4438;
pub const OP_NEG_8_AL: u32 = 0x4439;
pub const OP_NEG_16_DN: u32 = 0x4440;
pub const OP_NEG_16_AI: u32 = 0x4450;
pub const OP_NEG_16_PI: u32 = 0x4458;
pub const OP_NEG_16_PD: u32 = 0x4460;
pub const OP_NEG_16_DI: u32 = 0x4468;
pub const OP_NEG_16_IX: u32 = 0x4470;
pub const OP_NEG_16_AW: u32 = 0x4478;
pub const OP_NEG_16_AL: u32 = 0x4479;
pub const OP_NEG_32_DN: u32 = 0x4480;
pub const OP_NEG_32_AI: u32 = 0x4490;
pub const OP_NEG_32_PI: u32 = 0x4498;
pub const OP_NEG_32_PD: u32 = 0x44a0;
pub const OP_NEG_32_DI: u32 = 0x44a8;
pub const OP_NEG_32_IX: u32 = 0x44b0;
pub const OP_NEG_32_AW: u32 = 0x44b8;
pub const OP_NEG_32_AL: u32 = 0x44b9;
pub const OP_NEGX_8_DN: u32 = 0x4000;
pub const OP_NEGX_8_AI: u32 = 0x4010;
pub const OP_NEGX_8_PI: u32 = 0x4018;
pub const OP_NEGX_8_PD: u32 = 0x4020;
pub const OP_NEGX_8_DI: u32 = 0x4028;
pub const OP_NEGX_8_IX: u32 = 0x4030;
pub const OP_NEGX_8_AW: u32 = 0x4038;
pub const OP_NEGX_8_AL: u32 = 0x4039;
pub const OP_NEGX_16_DN: u32 = 0x4040;
pub const OP_NEGX_16_AI: u32 = 0x4050;
pub const OP_NEGX_16_PI: u32 = 0x4058;
pub const OP_NEGX_16_PD: u32 = 0x4060;
pub const OP_NEGX_16_DI: u32 = 0x4068;
pub const OP_NEGX_16_IX: u32 = 0x4070;
pub const OP_NEGX_16_AW: u32 = 0x4078;
pub const OP_NEGX_16_AL: u32 = 0x4079;
pub const OP_NEGX_32_DN: u32 = 0x4080;
pub const OP_NEGX_32_AI: u32 = 0x4090;
pub const OP_NEGX_32_PI: u32 = 0x4098;
pub const OP_NEGX_32_PD: u32 = 0x40a0;
pub const OP_NEGX_32_DI: u32 = 0x40a8;
pub const OP_NEGX_32_IX: u32 = 0x40b0;
pub const OP_NEGX_32_AW: u32 = 0x40b8;
pub const OP_NEGX_32_AL: u32 = 0x40b9;
pub const OP_NOT_8_DN: u32 = 0x4600;
pub const OP_NOT_8_AI: u32 = 0x4610;
pub const OP_NOT_8_PI: u32 = 0x4618;
pub const OP_NOT_8_PD: u32 = 0x4620;
pub const OP_NOT_8_DI: u32 = 0x4628;
pub const OP_NOT_8_IX: u32 = 0x4630;
pub const OP_NOT_8_AW: u32 = 0x4638;
pub const OP_NOT_8_AL: u32 = 0x4639;
pub const OP_NOT_16_DN: u32 = 0x4640;
pub const OP_NOT_16_AI: u32 = 0x4650;
pub const OP_NOT_16_PI: u32 = 0x4658;
pub const OP_NOT_16_PD: u32 = 0x4660;
pub const OP_NOT_16_DI: u32 = 0x4668;
pub const OP_NOT_16_IX: u32 = 0x4670;
pub const OP_NOT_16_AW: u32 = 0x4678;
pub const OP_NOT_16_AL: u32 = 0x4679;
pub const OP_NOT_32_DN: u32 = 0x4680;
pub const OP_NOT_32_AI: u32 = 0x4690;
pub const OP_NOT_32_PI: u32 = 0x4698;
pub const OP_NOT_32_PD: u32 = 0x46a0;
pub const OP_NOT_32_DI: u32 = 0x46a8;
pub const OP_NOT_32_IX: u32 = 0x46b0;
pub const OP_NOT_32_AW: u32 = 0x46b8;
pub const OP_NOT_32_AL: u32 = 0x46b9;
pub const OP_TAS_8_DN: u32 = 0x4ac0;
pub const OP_TAS_8_AI: u32 = 0x4ad0;
pub const OP_TAS_8_PI: u32 = 0x4ad8;
pub const OP_TAS_8_PD: u32 = 0x4ae0;
pub const OP_TAS_8_DI: u32 = 0x4ae8;
pub const OP_TAS_8_IX: u32 = 0x4af0;
pub const OP_TAS_8_AW: u32 = 0x4af8;
pub const OP_TAS_8_AL: u32 = 0x4af9;
pub const OP_TST_8_DN: u32 = 0x4a00;
pub const OP_TST_8_AI: u32 = 0x4a10;
pub const OP_TST_8_PI: u32 = 0x4a18;
pub const OP_TST_8_PD: u32 = 0x4a20;
pub const OP_TST_8_DI: u32 = 0x4a28;
pub const OP_TST_8_IX: u32 = 0x4a30;
pub const OP_TST_8_AW: u32 = 0x4a38;
pub const OP_TST_8_AL: u32 = 0x4a39;
pub const OP_TST_16_DN: u32 = 0x4a40;
pub const OP_TST_16_AI: u32 = 0x4a50;
pub const OP_TST_16_PI: u32 = 0x4a58;
pub const OP_TST_16_PD: u32 = 0x4a60;
pub const OP_TST_16_DI: u32 = 0x4a68;
pub const OP_TST_16_IX: u32 = 0x4a70;
pub const OP_TST_16_AW: u32 = 0x4a78;
pub const OP_TST_16_AL: u32 = 0x4a79;
pub const OP_TST_32_DN: u32 = 0x4a80;
pub const OP_TST_32_AI: u32 = 0x4a90;
pub const OP_TST_32_PI: u32 = 0x4a98;
pub const OP_TST_32_PD: u32 = 0x4aa0;
pub const OP_TST_32_DI: u32 = 0x4aa8;
pub const OP_TST_32_IX: u32 = 0x4ab0;
pub const OP_TST_32_AW: u32 = 0x4ab8;
pub const OP_TST_32_AL: u32 = 0x4ab9;
pub const OP_ADDA_16_DN: u32 = 0xd0c0;
pub const OP_ADDA_16_AN: u32 = 0xd0c8;
pub const OP_ADDA_16_AI: u32 = 0xd0d0;
pub const OP_ADDA_16_PI: u32 = 0xd0d8;
pub const OP_ADDA_16_PD: u32 = 0xd0e0;
pub const OP_ADDA_16_DI: u32 = 0xd0e8;
pub const OP_ADDA_16_IX: u32 = 0xd0f0;
pub const OP_ADDA_16_AW: u32 = 0xd0f8;
pub const OP_ADDA_16_AL: u32 = 0xd0f9;
pub const OP_ADDA_16_PCDI: u32 = 0xd0fa;
pub const OP_ADDA_16_PCIX: u32 = 0xd0fb;
pub const OP_ADDA_16_IMM: u32 = 0xd0fc;
pub const OP_ADDA_32_DN: u32 = 0xd1c0;
pub const OP_ADDA_32_AN: u32 = 0xd1c8;
pub const OP_ADDA_32_AI: u32 = 0xd1d0;
pub const OP_ADDA_32_PI: u32 = 0xd1d8;
pub const OP_ADDA_32_PD: u32 = 0xd1e0;
pub const OP_ADDA_32_DI: u32 = 0xd1e8;
pub const OP_ADDA_32_IX: u32 = 0xd1f0;
pub const OP_ADDA_32_AW: u32 = 0xd1f8;
pub const OP_ADDA_32_AL: u32 = 0xd1f9;
pub const OP_ADDA_32_PCDI: u32 = 0xd1fa;
pub const OP_ADDA_32_PCIX: u32 = 0xd1fb;
pub const OP_ADDA_32_IMM: u32 = 0xd1fc;
pub const OP_CMPA_16_DN: u32 = 0xb0c0;
pub const OP_CMPA_16_AN: u32 = 0xb0c8;
pub const OP_CMPA_16_AI: u32 = 0xb0d0;
pub const OP_CMPA_16_PI: u32 = 0xb0d8;
pub const OP_CMPA_16_PD: u32 = 0xb0e0;
pub const OP_CMPA_16_DI: u32 = 0xb0e8;
pub const OP_CMPA_16_IX: u32 = 0xb0f0;
pub const OP_CMPA_16_AW: u32 = 0xb0f8;
pub const OP_CMPA_16_AL: u32 = 0xb0f9;
pub const OP_CMPA_16_PCDI: u32 = 0xb0fa;
pub const OP_CMPA_16_PCIX: u32 = 0xb0fb;
pub const OP_CMPA_16_IMM: u32 = 0xb0fc;
pub const OP_CMPA_32_DN: u32 = 0xb1c0;
pub const OP_CMPA_32_AN: u32 = 0xb1c8;
pub const OP_CMPA_32_AI: u32 = 0xb1d0;
pub const OP_CMPA_32_PI: u32 = 0xb1d8;
pub const OP_CMPA_32_PD: u32 = 0xb1e0;
pub const OP_CMPA_32_DI: u32 = 0xb1e8;
pub const OP_CMPA_32_IX: u32 = 0xb1f0;
pub const OP_CMPA_32_AW: u32 = 0xb1f8;
pub const OP_CMPA_32_AL: u32 = 0xb1f9;
pub const OP_CMPA_32_PCDI: u32 = 0xb1fa;
pub const OP_CMPA_32_PCIX: u32 = 0xb1fb;
pub const OP_CMPA_32_IMM: u32 = 0xb1fc;
pub const OP_DIVS_16_DN: u32 = 0x81c0;
pub const OP_DIVS_16_AI: u32 = 0x81d0;
pub const OP_DIVS_16_PI: u32 = 0x81d8;
pub const OP_DIVS_16_PD: u32 = 0x81e0;
pub const OP_DIVS_16_DI: u32 = 0x81e8;
pub const OP_DIVS_16_IX: u32 = 0x81f0;
pub const OP_DIVS_16_AW: u32 = 0x81f8;
pub const OP_DIVS_16_AL: u32 = 0x81f9;
pub const OP_DIVS_16_PCDI: u32 = 0x81fa;
pub const OP_DIVS_16_PCIX: u32 = 0x81fb;
pub const OP_DIVS_16_IMM: u32 = 0x81fc;
pub const OP_DIVU_16_DN: u32 = 0x80c0;
pub const OP_DIVU_16_AI: u32 = 0x80d0;
pub const OP_DIVU_16_PI: u32 = 0x80d8;
pub const OP_DIVU_16_PD: u32 = 0x80e0;
pub const OP_DIVU_16_DI: u32 = 0x80e8;
pub const OP_DIVU_16_IX: u32 = 0x80f0;
pub const OP_DIVU_16_AW: u32 = 0x80f8;
pub const OP_DIVU_16_AL: u32 = 0x80f9;
pub const OP_DIVU_16_PCDI: u32 = 0x80fa;
pub const OP_DIVU_16_PCIX: u32 = 0x80fb;
pub const OP_DIVU_16_IMM: u32 = 0x80fc;
pub const OP_MULS_16_DN: u32 = 0xc1c0;
pub const OP_MULS_16_AI: u32 = 0xc1d0;
pub const OP_MULS_16_PI: u32 = 0xc1d8;
pub const OP_MULS_16_PD: u32 = 0xc1e0;
pub const OP_MULS_16_DI: u32 = 0xc1e8;
pub const OP_MULS_16_IX: u32 = 0xc1f0;
pub const OP_MULS_16_AW: u32 = 0xc1f8;
pub const OP_MULS_16_AL: u32 = 0xc1f9;
pub const OP_MULS_16_PCDI: u32 = 0xc1fa;
pub const OP_MULS_16_PCIX: u32 = 0xc1fb;
pub const OP_MULS_16_IMM: u32 = 0xc1fc;
pub const OP_MULU_16_DN: u32 = 0xc0c0;
pub const OP_MULU_16_AI: u32 = 0xc0d0;
pub const OP_MULU_16_PI: u32 = 0xc0d8;
pub const OP_MULU_16_PD: u32 = 0xc0e0;
pub const OP_MULU_16_DI: u32 = 0xc0e8;
pub const OP_MULU_16_IX: u32 = 0xc0f0;
pub const OP_MULU_16_AW: u32 = 0xc0f8;
pub const OP_MULU_16_AL: u32 = 0xc0f9;
pub const OP_MULU_16_PCDI: u32 = 0xc0fa;
pub const OP_MULU_16_PCIX: u32 = 0xc0fb;
pub const OP_MULU_16_IMM: u32 = 0xc0fc;
pub const OP_SUBA_16_DN: u32 = 0x90c0;
pub const OP_SUBA_16_AN: u32 = 0x90c8;
pub const OP_SUBA_16_AI: u32 = 0x90d0;
pub const OP_SUBA_16_PI: u32 = 0x90d8;
pub const OP_SUBA_16_PD: u32 = 0x90e0;
pub const OP_SUBA_16_DI: u32 = 0x90e8;
pub const OP_SUBA_16_IX: u32 = 0x90f0;
pub const OP_SUBA_16_AW: u32 = 0x90f8;
pub const OP_SUBA_16_AL: u32 = 0x90f9;
pub const OP_SUBA_16_PCDI: u32 = 0x90fa;
pub const OP_SUBA_16_PCIX: u32 = 0x90fb;
pub const OP_SUBA_16_IMM: u32 = 0x90fc;
pub const OP_SUBA_32_DN: u32 = 0x91c0;
pub const OP_SUBA_32_AN: u32 = 0x91c8;
pub const OP_SUBA_32_AI: u32 = 0x91d0;
pub const OP_SUBA_32_PI: u32 = 0x91d8;
pub const OP_SUBA_32_PD: u32 = 0x91e0;
pub const OP_SUBA_32_DI: u32 = 0x91e8;
pub const OP_SUBA_32_IX: u32 = 0x91f0;
pub const OP_SUBA_32_AW: u32 = 0x91f8;
pub const OP_SUBA_32_AL: u32 = 0x91f9;
pub const OP_SUBA_32_PCDI: u32 = 0x91fa;
pub const OP_SUBA_32_PCIX: u32 = 0x91fb;
pub const OP_SUBA_32_IMM: u32 = 0x91fc;
pub const OP_ASR_8_S: u32 = 0xe000;
pub const OP_ASR_16_S: u32 = 0xe040;
pub const OP_ASR_32_S: u32 = 0xe080;
pub const OP_ASR_8_R: u32 = 0xe020;
pub const OP_ASR_16_R: u32 = 0xe060;
pub const OP_ASR_32_R: u32 = 0xe0a0;
pub const OP_ASL_8_S: u32 = 0xe100;
pub const OP_ASL_16_S: u32 = 0xe140;
pub const OP_ASL_32_S: u32 = 0xe180;
pub const OP_ASL_8_R: u32 = 0xe120;
pub const OP_ASL_16_R: u32 = 0xe160;
pub const OP_ASL_32_R: u32 = 0xe1a0;
pub const OP_ASL_16_AI: u32 = 0xe1d0;
pub const OP_ASL_16_PI: u32 = 0xe1d8;
pub const OP_ASL_16_PD: u32 = 0xe1e0;
pub const OP_ASL_16_DI: u32 = 0xe1e8;
pub const OP_ASL_16_IX: u32 = 0xe1f0;
pub const OP_ASL_16_AW: u32 = 0xe1f8;
pub const OP_ASL_16_AL: u32 = 0xe1f9;
pub const OP_ASR_16_AI: u32 = 0xe0d0;
pub const OP_ASR_16_PI: u32 = 0xe0d8;
pub const OP_ASR_16_PD: u32 = 0xe0e0;
pub const OP_ASR_16_DI: u32 = 0xe0e8;
pub const OP_ASR_16_IX: u32 = 0xe0f0;
pub const OP_ASR_16_AW: u32 = 0xe0f8;
pub const OP_ASR_16_AL: u32 = 0xe0f9;
pub const OP_LSR_8_S: u32 = 0xe008;
pub const OP_LSR_16_S: u32 = 0xe048;
pub const OP_LSR_32_S: u32 = 0xe088;
pub const OP_LSR_8_R: u32 = 0xe028;
pub const OP_LSR_16_R: u32 = 0xe068;
pub const OP_LSR_32_R: u32 = 0xe0a8;
pub const OP_LSL_8_S: u32 = 0xe108;
pub const OP_LSL_16_S: u32 = 0xe148;
pub const OP_LSL_32_S: u32 = 0xe188;
pub const OP_LSL_8_R: u32 = 0xe128;
pub const OP_LSL_16_R: u32 = 0xe168;
pub const OP_LSL_32_R: u32 = 0xe1a8;
pub const OP_LSL_16_AI: u32 = 0xe3d0;
pub const OP_LSL_16_PI: u32 = 0xe3d8;
pub const OP_LSL_16_PD: u32 = 0xe3e0;
pub const OP_LSL_16_DI: u32 = 0xe3e8;
pub const OP_LSL_16_IX: u32 = 0xe3f0;
pub const OP_LSL_16_AW: u32 = 0xe3f8;
pub const OP_LSL_16_AL: u32 = 0xe3f9;
pub const OP_LSR_16_AI: u32 = 0xe2d0;
pub const OP_LSR_16_PI: u32 = 0xe2d8;
pub const OP_LSR_16_PD: u32 = 0xe2e0;
pub const OP_LSR_16_DI: u32 = 0xe2e8;
pub const OP_LSR_16_IX: u32 = 0xe2f0;
pub const OP_LSR_16_AW: u32 = 0xe2f8;
pub const OP_LSR_16_AL: u32 = 0xe2f9;
pub const OP_ROR_8_S: u32 = 0xe018;
pub const OP_ROR_16_S: u32 = 0xe058;
pub const OP_ROR_32_S: u32 = 0xe098;
pub const OP_ROR_8_R: u32 = 0xe038;
pub const OP_ROR_16_R: u32 = 0xe078;
pub const OP_ROR_32_R: u32 = 0xe0b8;
pub const OP_ROL_8_S: u32 = 0xe118;
pub const OP_ROL_16_S: u32 = 0xe158;
pub const OP_ROL_32_S: u32 = 0xe198;
pub const OP_ROL_8_R: u32 = 0xe138;
pub const OP_ROL_16_R: u32 = 0xe178;
pub const OP_ROL_32_R: u32 = 0xe1b8;
pub const OP_ROL_16_AI: u32 = 0xe7d0;
pub const OP_ROL_16_PI: u32 = 0xe7d8;
pub const OP_ROL_16_PD: u32 = 0xe7e0;
pub const OP_ROL_16_DI: u32 = 0xe7e8;
pub const OP_ROL_16_IX: u32 = 0xe7f0;
pub const OP_ROL_16_AW: u32 = 0xe7f8;
pub const OP_ROL_16_AL: u32 = 0xe7f9;
pub const OP_ROR_16_AI: u32 = 0xe6d0;
pub const OP_ROR_16_PI: u32 = 0xe6d8;
pub const OP_ROR_16_PD: u32 = 0xe6e0;
pub const OP_ROR_16_DI: u32 = 0xe6e8;
pub const OP_ROR_16_IX: u32 = 0xe6f0;
pub const OP_ROR_16_AW: u32 = 0xe6f8;
pub const OP_ROR_16_AL: u32 = 0xe6f9;
pub const OP_ROXR_8_S: u32 = 0xe010;
pub const OP_ROXR_16_S: u32 = 0xe050;
pub const OP_ROXR_32_S: u32 = 0xe090;
pub const OP_ROXR_8_R: u32 = 0xe030;
pub const OP_ROXR_16_R: u32 = 0xe070;
pub const OP_ROXR_32_R: u32 = 0xe0b0;
pub const OP_ROXL_8_S: u32 = 0xe110;
pub const OP_ROXL_16_S: u32 = 0xe150;
pub const OP_ROXL_32_S: u32 = 0xe190;
pub const OP_ROXL_8_R: u32 = 0xe130;
pub const OP_ROXL_16_R: u32 = 0xe170;
pub const OP_ROXL_32_R: u32 = 0xe1b0;
pub const OP_ROXL_16_AI: u32 = 0xe5d0;
pub const OP_ROXL_16_PI: u32 = 0xe5d8;
pub const OP_ROXL_16_PD: u32 = 0xe5e0;
pub const OP_ROXL_16_DI: u32 = 0xe5e8;
pub const OP_ROXL_16_IX: u32 = 0xe5f0;
pub const OP_ROXL_16_AW: u32 = 0xe5f8;
pub const OP_ROXL_16_AL: u32 = 0xe5f9;
pub const OP_ROXR_16_AI: u32 = 0xe4d0;
pub const OP_ROXR_16_PI: u32 = 0xe4d8;
pub const OP_ROXR_16_PD: u32 = 0xe4e0;
pub const OP_ROXR_16_DI: u32 = 0xe4e8;
pub const OP_ROXR_16_IX: u32 = 0xe4f0;
pub const OP_ROXR_16_AW: u32 = 0xe4f8;
pub const OP_ROXR_16_AL: u32 = 0xe4f9;
pub const OP_BCHG_8_R_AI: u32 = 0x0150;
pub const OP_BCHG_8_R_PI: u32 = 0x0158;
pub const OP_BCHG_8_R_PD: u32 = 0x0160;
pub const OP_BCHG_8_R_DI: u32 = 0x0168;
pub const OP_BCHG_8_R_IX: u32 = 0x0170;
pub const OP_BCHG_8_R_AW: u32 = 0x0178;
pub const OP_BCHG_8_R_AL: u32 = 0x0179;
pub const OP_BCHG_8_S_AI: u32 = 0x0850;
pub const OP_BCHG_8_S_PI: u32 = 0x0858;
pub const OP_BCHG_8_S_PD: u32 = 0x0860;
pub const OP_BCHG_8_S_DI: u32 = 0x0868;
pub const OP_BCHG_8_S_IX: u32 = 0x0870;
pub const OP_BCHG_8_S_AW: u32 = 0x0878;
pub const OP_BCHG_8_S_AL: u32 = 0x0879;
pub const OP_BCLR_8_R_AI: u32 = 0x0190;
pub const OP_BCLR_8_R_PI: u32 = 0x0198;
pub const OP_BCLR_8_R_PD: u32 = 0x01a0;
pub const OP_BCLR_8_R_DI: u32 = 0x01a8;
pub const OP_BCLR_8_R_IX: u32 = 0x01b0;
pub const OP_BCLR_8_R_AW: u32 = 0x01b8;
pub const OP_BCLR_8_R_AL: u32 = 0x01b9;
pub const OP_BCLR_8_S_AI: u32 = 0x0890;
pub const OP_BCLR_8_S_PI: u32 = 0x0898;
pub const OP_BCLR_8_S_PD: u32 = 0x08a0;
pub const OP_BCLR_8_S_DI: u32 = 0x08a8;
pub const OP_BCLR_8_S_IX: u32 = 0x08b0;
pub const OP_BCLR_8_S_AW: u32 = 0x08b8;
pub const OP_BCLR_8_S_AL: u32 = 0x08b9;
pub const OP_BSET_8_R_AI: u32 = 0x01d0;
pub const OP_BSET_8_R_PI: u32 = 0x01d8;
pub const OP_BSET_8_R_PD: u32 = 0x01e0;
pub const OP_BSET_8_R_DI: u32 = 0x01e8;
pub const OP_BSET_8_R_IX: u32 = 0x01f0;
pub const OP_BSET_8_R_AW: u32 = 0x01f8;
pub const OP_BSET_8_R_AL: u32 = 0x01f9;
pub const OP_BSET_8_S_AI: u32 = 0x08d0;
pub const OP_BSET_8_S_PI: u32 = 0x08d8;
pub const OP_BSET_8_S_PD: u32 = 0x08e0;
pub const OP_BSET_8_S_DI: u32 = 0x08e8;
pub const OP_BSET_8_S_IX: u32 = 0x08f0;
pub const OP_BSET_8_S_AW: u32 = 0x08f8;
pub const OP_BSET_8_S_AL: u32 = 0x08f9;
pub const OP_BTST_8_R_AI: u32 = 0x0110;
pub const OP_BTST_8_R_PI: u32 = 0x0118;
pub const OP_BTST_8_R_PD: u32 = 0x0120;
pub const OP_BTST_8_R_DI: u32 = 0x0128;
pub const OP_BTST_8_R_IX: u32 = 0x0130;
pub const OP_BTST_8_R_AW: u32 = 0x0138;
pub const OP_BTST_8_R_AL: u32 = 0x0139;
pub const OP_BTST_8_R_PCDI: u32 = 0x013a;
pub const OP_BTST_8_R_PCIX: u32 = 0x013b;
pub const OP_BTST_8_R_IMM: u32 = 0x013c;
pub const OP_BTST_8_S_AI: u32 = 0x0810;
pub const OP_BTST_8_S_PI: u32 = 0x0818;
pub const OP_BTST_8_S_PD: u32 = 0x0820;
pub const OP_BTST_8_S_DI: u32 = 0x0828;
pub const OP_BTST_8_S_IX: u32 = 0x0830;
pub const OP_BTST_8_S_AW: u32 = 0x0838;
pub const OP_BTST_8_S_AL: u32 = 0x0839;
pub const OP_BTST_8_S_PCDI: u32 = 0x083a;
pub const OP_BTST_8_S_PCIX: u32 = 0x083b;
pub const OP_BTST_8_S_IMM: u32 = 0x083c;
pub const OP_MOVE_16_TOC_DN: u32 = 0x44c0;
pub const OP_MOVE_16_TOC_AI: u32 = 0x44d0;
pub const OP_MOVE_16_TOC_PI: u32 = 0x44d8;
pub const OP_MOVE_16_TOC_PD: u32 = 0x44e0;
pub const OP_MOVE_16_TOC_DI: u32 = 0x44e8;
pub const OP_MOVE_16_TOC_IX: u32 = 0x44f0;
pub const OP_MOVE_16_TOC_AW: u32 = 0x44f8;
pub const OP_MOVE_16_TOC_AL: u32 = 0x44f9;
pub const OP_MOVE_16_TOC_PCDI: u32 = 0x44fa;
pub const OP_MOVE_16_TOC_PCIX: u32 = 0x44fb;
pub const OP_MOVE_16_TOC_IMM: u32 = 0x44fc;
pub const OP_MOVE_16_FRS_DN: u32 = 0x40c0;
pub const OP_MOVE_16_FRS_AI: u32 = 0x40d0;
pub const OP_MOVE_16_FRS_PI: u32 = 0x40d8;
pub const OP_MOVE_16_FRS_PD: u32 = 0x40e0;
pub const OP_MOVE_16_FRS_DI: u32 = 0x40e8;
pub const OP_MOVE_16_FRS_IX: u32 = 0x40f0;
pub const OP_MOVE_16_FRS_AW: u32 = 0x40f8;
pub const OP_MOVE_16_FRS_AL: u32 = 0x40f9;
pub const OP_MOVE_16_TOS_DN: u32 = 0x46c0;
pub const OP_MOVE_16_TOS_AI: u32 = 0x46d0;
pub const OP_MOVE_16_TOS_PI: u32 = 0x46d8;
pub const OP_MOVE_16_TOS_PD: u32 = 0x46e0;
pub const OP_MOVE_16_TOS_DI: u32 = 0x46e8;
pub const OP_MOVE_16_TOS_IX: u32 = 0x46f0;
pub const OP_MOVE_16_TOS_AW: u32 = 0x46f8;
pub const OP_MOVE_16_TOS_AL: u32 = 0x46f9;
pub const OP_MOVE_16_TOS_PCDI: u32 = 0x46fa;
pub const OP_MOVE_16_TOS_PCIX: u32 = 0x46fb;
pub const OP_MOVE_16_TOS_IMM: u32 = 0x46fc;
pub const OP_MOVEM_16_RE_AI: u32 = 0x4890;
pub const OP_MOVEM_16_RE_PD: u32 = 0x48a0;
pub const OP_MOVEM_16_RE_DI: u32 = 0x48a8;
pub const OP_MOVEM_16_RE_IX: u32 = 0x48b0;
pub const OP_MOVEM_16_RE_AW: u32 = 0x48b8;
pub const OP_MOVEM_16_RE_AL: u32 = 0x48b9;
pub const OP_MOVEM_16_ER_AI: u32 = 0x4c90;
pub const OP_MOVEM_16_ER_PI: u32 = 0x4c98;
pub const OP_MOVEM_16_ER_DI: u32 = 0x4ca8;
pub const OP_MOVEM_16_ER_IX: u32 = 0x4cb0;
pub const OP_MOVEM_16_ER_AW: u32 = 0x4cb8;
pub const OP_MOVEM_16_ER_AL: u32 = 0x4cb9;
pub const OP_MOVEM_16_ER_PCDI: u32 = 0x4cba;
pub const OP_MOVEM_16_ER_PCIX: u32 = 0x4cbb;
pub const OP_MOVEM_32_RE_AI: u32 = 0x48d0;
pub const OP_MOVEM_32_RE_PD: u32 = 0x48e0;
pub const OP_MOVEM_32_RE_DI: u32 = 0x48e8;
pub const OP_MOVEM_32_RE_IX: u32 = 0x48f0;
pub const OP_MOVEM_32_RE_AW: u32 = 0x48f8;
pub const OP_MOVEM_32_RE_AL: u32 = 0x48f9;
pub const OP_MOVEM_32_ER_AI: u32 = 0x4cd0;
pub const OP_MOVEM_32_ER_PI: u32 = 0x4cd8;
pub const OP_MOVEM_32_ER_DI: u32 = 0x4ce8;
pub const OP_MOVEM_32_ER_IX: u32 = 0x4cf0;
pub const OP_MOVEM_32_ER_AW: u32 = 0x4cf8;
pub const OP_MOVEM_32_ER_AL: u32 = 0x4cf9;
pub const OP_MOVEM_32_ER_PCDI: u32 = 0x4cfa;
pub const OP_MOVEM_32_ER_PCIX: u32 = 0x4cfb;

} // verus!
